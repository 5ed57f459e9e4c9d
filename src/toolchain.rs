use vstd::prelude::*;

use crate::model::{BuildError, BuildProfile, BuiltService, DeploymentClass, Package, ToolchainOutcome};
use crate::paths::{
    artifact_path_spec, join_path, join_spec, resolve_artifact_path, ArtifactLayout, WASM_TRIPLE,
};

verus! {

/// The views of a list of strings.
pub open spec fn texts(v: Seq<String>) -> Seq<Seq<char>> {
    v.map_values(|s: String| s@)
}

/// The workspace manifest of the workspace at `root`.
pub open spec fn manifest_path_spec(root: Seq<char>) -> Seq<char> {
    join_spec(root, "Cargo.toml"@)
}

pub fn manifest_path(root: &str) -> (r: String)
    ensures
        r@ == manifest_path_spec(root@),
{
    join_path(root, "Cargo.toml")
}

/// The toolchain's name for a profile.
pub open spec fn profile_flag_spec(profile: BuildProfile) -> Seq<char> {
    match profile {
        BuildProfile::Debug => "dev"@,
        BuildProfile::Release => "release"@,
    }
}

pub fn profile_flag(profile: BuildProfile) -> (r: &'static str)
    ensures
        r@ == profile_flag_spec(profile),
{
    match profile {
        BuildProfile::Debug => "dev",
        BuildProfile::Release => "release",
    }
}

/// One `--package <name>` selector per name, in order.
pub open spec fn selectors(names: Seq<Seq<char>>) -> Seq<Seq<char>>
    decreases names.len(),
{
    if names.len() == 0 {
        Seq::empty()
    } else {
        selectors(names.drop_last()) + seq!["--package"@, names.last()]
    }
}

/// The names of the members that a batch selects.
pub open spec fn batch_names(ms: Seq<Package>, batch: Seq<usize>) -> Seq<Seq<char>> {
    batch.map_values(|i: usize| ms[i as int].name@)
}

/// The toolchain arguments that build all the named packages in one run.
pub open spec fn compile_args_spec(
    names: Seq<Seq<char>>,
    profile: BuildProfile,
    class: DeploymentClass,
    manifest: Seq<char>,
    jobs: Seq<char>,
) -> Seq<Seq<char>> {
    seq!["build"@, "-j"@, jobs, "--manifest-path"@, manifest] + selectors(names) + seq![
        "--profile"@,
        profile_flag_spec(profile),
    ] + match class {
        DeploymentClass::WasmLibrary => seq!["--target"@, WASM_TRIPLE@],
        DeploymentClass::NativeBinary => Seq::empty(),
    }
}

fn push_text(args: &mut Vec<String>, s: &str)
    ensures
        final(args)@ == old(args)@.push(final(args)@.last()),
        final(args)@.last()@ == s@,
        texts(final(args)@) == texts(old(args)@).push(s@),
{
    args.push(String::from_str(s));
    assert(texts(final(args)@) =~= texts(old(args)@).push(s@));
}

/// The arguments of the single toolchain run that builds every member in
/// `batch`, for the workspace at `root`, with the parallelism hint `jobs`.
pub fn compile_args(
    members: &Vec<Package>,
    batch: &Vec<usize>,
    profile: BuildProfile,
    class: DeploymentClass,
    root: &str,
    jobs: &str,
) -> (r: Vec<String>)
    requires
        forall|k: int| 0 <= k < batch.len() ==> batch[k] < members.len(),
    ensures
        texts(r@) == compile_args_spec(
            batch_names(members@, batch@),
            profile,
            class,
            manifest_path_spec(root@),
            jobs@,
        ),
{
    let mut args: Vec<String> = Vec::new();
    push_text(&mut args, "build");
    push_text(&mut args, "-j");
    push_text(&mut args, jobs);
    push_text(&mut args, "--manifest-path");
    let manifest = manifest_path(root);
    push_text(&mut args, manifest.as_str());
    let ghost head = texts(args@);
    let mut i: usize = 0;
    while i < batch.len()
        invariant
            i <= batch.len(),
            forall|k: int| 0 <= k < batch.len() ==> batch[k] < members.len(),
            texts(args@) == head + selectors(batch_names(members@, batch@.take(i as int))),
        decreases batch.len() - i,
    {
        push_text(&mut args, "--package");
        push_text(&mut args, members[batch[i]].name.as_str());
        proof {
            let names = batch_names(members@, batch@.take(i as int + 1));
            assert(names.drop_last() =~= batch_names(members@, batch@.take(i as int)));
            assert(names.last() == members[batch[i as int] as int].name@);
            assert(texts(args@) =~= head + selectors(names));
        }
        i = i + 1;
    }
    assert(batch@.take(batch.len() as int) =~= batch@);
    push_text(&mut args, "--profile");
    push_text(&mut args, profile_flag(profile));
    match class {
        DeploymentClass::WasmLibrary => {
            push_text(&mut args, "--target");
            push_text(&mut args, WASM_TRIPLE);
        },
        DeploymentClass::NativeBinary => {},
    }
    assert(texts(args@) =~= compile_args_spec(
        batch_names(members@, batch@),
        profile,
        class,
        manifest_path_spec(root@),
        jobs@,
    ));
    args
}

/// Settings of a build that hold for every batch.
pub struct BuildConfig {
    pub profile: BuildProfile,
    pub layout: ArtifactLayout,
    /// Treat a failed toolchain run as a success, as older releases did.
    pub ignore_exit_status: bool,
}

/// `s` describes the artifact of package `p` built with `cfg` in class `class`.
pub open spec fn describes_artifact(
    s: BuiltService,
    p: Package,
    cfg: BuildConfig,
    class: DeploymentClass,
    root: Seq<char>,
    cwd: Seq<char>,
) -> bool {
    &&& s.executable_path@ == artifact_path_spec(cfg.layout, root, p.name@, cfg.profile, class)
    &&& s.is_wasm == (class == DeploymentClass::WasmLibrary)
    &&& s.package_name@ == p.name@
    &&& s.working_directory@ == cwd
    &&& s.manifest_path@ == p.manifest_path@
}

/// The descriptor of the artifact of package `p`.
pub fn built_service(
    p: &Package,
    cfg: &BuildConfig,
    class: DeploymentClass,
    root: &str,
    cwd: &str,
) -> (r: BuiltService)
    ensures
        describes_artifact(r, *p, *cfg, class, root@, cwd@),
{
    let path = resolve_artifact_path(&cfg.layout, root, p.name.as_str(), cfg.profile, class);
    let is_wasm = match class {
        DeploymentClass::WasmLibrary => true,
        DeploymentClass::NativeBinary => false,
    };
    BuiltService::new(
        path,
        is_wasm,
        p.name.clone(),
        String::from_str(cwd),
        p.manifest_path.clone(),
    )
}

/// The outcome of building `batch`: a descriptor for each of its members in
/// order, or the toolchain's error output when the run failed.
pub fn batch_services(
    members: &Vec<Package>,
    batch: &Vec<usize>,
    class: DeploymentClass,
    cfg: &BuildConfig,
    root: &str,
    cwd: &str,
    outcome: &ToolchainOutcome,
) -> (r: Result<Vec<BuiltService>, BuildError>)
    requires
        forall|k: int| 0 <= k < batch.len() ==> batch[k] < members.len(),
    ensures
        !outcome.success && !cfg.ignore_exit_status ==> r == Err::<Vec<BuiltService>, BuildError>(
            BuildError::CompilationFailed(outcome.stderr),
        ),
        outcome.success || cfg.ignore_exit_status ==> r is Ok && r->Ok_0.len() == batch.len() && (
        forall|k: int|
            0 <= k < batch.len() ==> describes_artifact(
                #[trigger] r->Ok_0[k],
                members[batch[k] as int],
                *cfg,
                class,
                root@,
                cwd@,
            )),
{
    if !outcome.success && !cfg.ignore_exit_status {
        return Err(BuildError::CompilationFailed(outcome.stderr.clone()));
    }
    let mut out: Vec<BuiltService> = Vec::new();
    let mut i: usize = 0;
    while i < batch.len()
        invariant
            i <= batch.len(),
            out.len() == i,
            forall|k: int| 0 <= k < batch.len() ==> batch[k] < members.len(),
            forall|k: int|
                0 <= k < i ==> describes_artifact(
                    #[trigger] out[k],
                    members[batch[k] as int],
                    *cfg,
                    class,
                    root@,
                    cwd@,
                ),
        decreases batch.len() - i,
    {
        let s = built_service(&members[batch[i]], cfg, class, root, cwd);
        out.push(s);
        i = i + 1;
    }
    Ok(out)
}

/// The toolchain arguments that clean one profile's outputs of the workspace
/// at `root`.
pub open spec fn clean_args_spec(root: Seq<char>, profile: BuildProfile) -> Seq<Seq<char>> {
    seq!["clean"@, "--manifest-path"@, manifest_path_spec(root), "--profile"@, profile_flag_spec(profile)]
}

pub fn clean_args(root: &str, profile: BuildProfile) -> (r: Vec<String>)
    ensures
        texts(r@) == clean_args_spec(root@, profile),
{
    let mut args: Vec<String> = Vec::new();
    push_text(&mut args, "clean");
    push_text(&mut args, "--manifest-path");
    let manifest = manifest_path(root);
    push_text(&mut args, manifest.as_str());
    push_text(&mut args, "--profile");
    push_text(&mut args, profile_flag(profile));
    assert(texts(args@) =~= clean_args_spec(root@, profile));
    args
}

/// The result of a clean run: its error and standard output, in that order,
/// when it succeeded.
pub fn clean_result(outcome: ToolchainOutcome) -> (r: Result<Vec<String>, BuildError>)
    ensures
        outcome.success ==> r is Ok && r->Ok_0@ == seq![outcome.stderr, outcome.stdout],
        !outcome.success ==> r == Err::<Vec<String>, BuildError>(
            BuildError::CleanFailed(outcome.stderr),
        ),
{
    if outcome.success {
        let mut lines: Vec<String> = Vec::new();
        lines.push(outcome.stderr);
        lines.push(outcome.stdout);
        assert(lines@ =~= seq![outcome.stderr, outcome.stdout]);
        Ok(lines)
    } else {
        Err(BuildError::CleanFailed(outcome.stderr))
    }
}

} // verus!
