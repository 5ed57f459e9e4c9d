use vstd::prelude::*;

use crate::model::{BuildProfile, DeploymentClass};

verus! {

/// `base` followed by the path segment `seg`, with one `/` between them.
pub open spec fn join_spec(base: Seq<char>, seg: Seq<char>) -> Seq<char> {
    if base.len() == 0 {
        seg
    } else if base.last() == '/' {
        base + seg
    } else {
        base + seq!['/'] + seg
    }
}

/// Appends the path segment `seg` to `base`.
pub fn join_path(base: &str, seg: &str) -> (r: String)
    ensures
        r@ == join_spec(base@, seg@),
{
    let n: usize = base.unicode_len();
    if n == 0 {
        String::from_str(seg)
    } else if base.get_char(n - 1) == '/' {
        String::from_str(base).concat(seg)
    } else {
        proof {
            reveal_strlit("/");
        }
        String::from_str(base).concat("/").concat(seg)
    }
}

/// The target triple that wasm libraries are cross-compiled for.
pub const WASM_TRIPLE: &'static str = "wasm32-wasi";

/// Where the toolchain puts its outputs.
pub struct ArtifactLayout {
    /// Replaces `<workspace root>/target` when set.
    pub target_dir: Option<String>,
    /// Appended to native executables ("" on Unix-like hosts, ".exe" on Windows).
    pub exe_suffix: String,
}

impl ArtifactLayout {
    /// The toolchain's default layout on a host whose executables end in `exe_suffix`.
    pub fn new(exe_suffix: String) -> (r: Self)
        ensures
            r.target_dir is None,
            r.exe_suffix == exe_suffix,
    {
        ArtifactLayout { target_dir: None, exe_suffix }
    }

    /// The directory that holds every output of the workspace at `root`.
    pub open spec fn target_dir_spec(&self, root: Seq<char>) -> Seq<char> {
        match self.target_dir {
            Some(d) => d@,
            None => join_spec(root, "target"@),
        }
    }

    pub fn target_dir_of(&self, root: &str) -> (r: String)
        ensures
            r@ == self.target_dir_spec(root@),
    {
        match &self.target_dir {
            Some(d) => d.clone(),
            None => join_path(root, "target"),
        }
    }
}

/// The directory name of a profile's outputs.
pub open spec fn profile_dir_spec(profile: BuildProfile) -> Seq<char> {
    match profile {
        BuildProfile::Debug => "debug"@,
        BuildProfile::Release => "release"@,
    }
}

pub fn profile_dir(profile: BuildProfile) -> (r: &'static str)
    ensures
        r@ == profile_dir_spec(profile),
{
    match profile {
        BuildProfile::Debug => "debug",
        BuildProfile::Release => "release",
    }
}

/// The path of the artifact that the toolchain produces for package `name`.
pub open spec fn artifact_path_spec(
    layout: ArtifactLayout,
    root: Seq<char>,
    name: Seq<char>,
    profile: BuildProfile,
    class: DeploymentClass,
) -> Seq<char> {
    match class {
        DeploymentClass::NativeBinary => join_spec(
            join_spec(layout.target_dir_spec(root), profile_dir_spec(profile)),
            name,
        ) + layout.exe_suffix@,
        DeploymentClass::WasmLibrary => join_spec(
            join_spec(join_spec(layout.target_dir_spec(root), WASM_TRIPLE@), profile_dir_spec(profile)),
            name,
        ) + ".wasm"@,
    }
}

/// Computes where the toolchain puts the artifact of package `name` when it
/// builds the workspace at `root`. Nothing is read from disk.
pub fn resolve_artifact_path(
    layout: &ArtifactLayout,
    root: &str,
    name: &str,
    profile: BuildProfile,
    class: DeploymentClass,
) -> (r: String)
    ensures
        r@ == artifact_path_spec(*layout, root@, name@, profile, class),
{
    let target = layout.target_dir_of(root);
    match class {
        DeploymentClass::NativeBinary => {
            let dir = join_path(target.as_str(), profile_dir(profile));
            join_path(dir.as_str(), name).concat(layout.exe_suffix.as_str())
        },
        DeploymentClass::WasmLibrary => {
            let triple = join_path(target.as_str(), WASM_TRIPLE);
            let dir = join_path(triple.as_str(), profile_dir(profile));
            join_path(dir.as_str(), name).concat(".wasm")
        },
    }
}

proof fn lemma_join_plain(base: Seq<char>, seg: Seq<char>)
    requires
        base.len() > 0,
        base.last() != '/',
        seg.len() > 0,
    ensures
        join_spec(base, seg) == base + seq!['/'] + seg,
        join_spec(base, seg).len() > 0,
        join_spec(base, seg).last() == seg.last(),
{
}

/// With the default layout, a native binary lands at
/// `<root>/target/<profile>/<name><exe suffix>`, and a wasm library at
/// `<root>/target/wasm32-wasi/<profile>/<name>.wasm` whatever the host's
/// executable suffix.
pub proof fn lemma_default_layout_paths(
    layout: ArtifactLayout,
    other_host: ArtifactLayout,
    root: Seq<char>,
    name: Seq<char>,
    profile: BuildProfile,
)
    requires
        layout.target_dir is None,
        other_host.target_dir is None,
        root.len() > 0,
        root.last() != '/',
    ensures
        artifact_path_spec(layout, root, name, profile, DeploymentClass::NativeBinary) == root
            + seq!['/'] + "target"@ + seq!['/'] + profile_dir_spec(profile) + seq!['/'] + name
            + layout.exe_suffix@,
        artifact_path_spec(layout, root, name, profile, DeploymentClass::WasmLibrary) == root
            + seq!['/'] + "target"@ + seq!['/'] + "wasm32-wasi"@ + seq!['/'] + profile_dir_spec(
            profile,
        ) + seq!['/'] + name + ".wasm"@,
        artifact_path_spec(layout, root, name, profile, DeploymentClass::WasmLibrary)
            == artifact_path_spec(other_host, root, name, profile, DeploymentClass::WasmLibrary),
{
    reveal_strlit("target");
    reveal_strlit("wasm32-wasi");
    reveal_strlit("debug");
    reveal_strlit("release");
    let target = root + seq!['/'] + "target"@;
    lemma_join_plain(root, "target"@);
    let pd = profile_dir_spec(profile);
    lemma_join_plain(target, pd);
    assert(WASM_TRIPLE@ == "wasm32-wasi"@);
    lemma_join_plain(target, "wasm32-wasi"@);
    let triple = target + seq!['/'] + "wasm32-wasi"@;
    lemma_join_plain(triple, pd);
    assert(join_spec(target, pd) + seq!['/'] + name =~= root + seq!['/'] + "target"@ + seq!['/'] + pd
        + seq!['/'] + name);
    assert(join_spec(triple, pd) + seq!['/'] + name =~= root + seq!['/'] + "target"@ + seq!['/']
        + "wasm32-wasi"@ + seq!['/'] + pd + seq!['/'] + name);
}

} // verus!
