use vstd::prelude::*;

use crate::classify::{
    class_indices, class_of, classify, declares_kind, first_fault, member_fault, ClassMarkers,
};
use crate::model::{BuildError, BuildProfile, DeploymentClass, Package};
use crate::toolchain::{batch_names, compile_args_spec, selectors};

verus! {

/// The members of one deployment class, built together by one toolchain run.
pub struct CompileBatch {
    pub class: DeploymentClass,
    /// Indices into the workspace's member list.
    pub packages: Vec<usize>,
}

pub open spec fn batches_view(v: Seq<CompileBatch>) -> Seq<(DeploymentClass, Seq<usize>)> {
    v.map_values(|b: CompileBatch| (b.class, b.packages@))
}

/// One batch per class that has members, native binaries first.
pub open spec fn planned_batches(ms: Seq<Package>, markers: ClassMarkers) -> Seq<(DeploymentClass, Seq<usize>)> {
    let native = class_indices(ms, markers, DeploymentClass::NativeBinary, ms.len() as int);
    let wasm = class_indices(ms, markers, DeploymentClass::WasmLibrary, ms.len() as int);
    (if native.len() > 0 {
        seq![(DeploymentClass::NativeBinary, native)]
    } else {
        Seq::empty()
    }) + (if wasm.len() > 0 {
        seq![(DeploymentClass::WasmLibrary, wasm)]
    } else {
        Seq::empty()
    })
}

/// What a build decides before any toolchain run: the batches to compile, or
/// why nothing is compiled.
pub open spec fn plan_spec(
    manifest_exists: bool,
    ms: Seq<Package>,
    markers: ClassMarkers,
) -> Result<Seq<(DeploymentClass, Seq<usize>)>, BuildError> {
    if !manifest_exists {
        Err(BuildError::ManifestNotFound)
    } else {
        match first_fault(ms, markers, ms.len() as int) {
            Some(e) => Err(e),
            None => Ok(planned_batches(ms, markers)),
        }
    }
}

/// Decides which toolchain runs a build makes. `manifest_exists` tells whether
/// the workspace manifest is present; `members` are the workspace's members.
pub fn plan_build(
    manifest_exists: bool,
    members: &Vec<Package>,
    markers: &ClassMarkers,
) -> (r: Result<Vec<CompileBatch>, BuildError>)
    ensures
        match plan_spec(manifest_exists, members@, *markers) {
            Err(e) => r == Err::<Vec<CompileBatch>, BuildError>(e),
            Ok(bs) => r is Ok && batches_view(r->Ok_0@) == bs,
        },
        r is Ok ==> forall|a: int, k: int|
            0 <= a < r->Ok_0.len() && 0 <= k < r->Ok_0[a].packages.len() ==> #[trigger] r->Ok_0[a].packages[k]
                < members.len(),
{
    if !manifest_exists {
        return Err(BuildError::ManifestNotFound);
    }
    let classified = match classify(members, markers) {
        Ok(c) => c,
        Err(e) => return Err(e),
    };
    let mut batches: Vec<CompileBatch> = Vec::new();
    if classified.native.len() > 0 {
        batches.push(CompileBatch { class: DeploymentClass::NativeBinary, packages: classified.native });
    }
    if classified.wasm.len() > 0 {
        batches.push(CompileBatch { class: DeploymentClass::WasmLibrary, packages: classified.wasm });
    }
    assert(batches_view(batches@) =~= planned_batches(members@, *markers));
    proof {
        let n = members.len() as int;
        lemma_class_indices_members(members@, *markers, DeploymentClass::NativeBinary, n);
        lemma_class_indices_members(members@, *markers, DeploymentClass::WasmLibrary, n);
    }
    Ok(batches)
}

/// Every index of a class lies below the number of members looked at, and
/// names a member of that class.
pub proof fn lemma_class_indices_members(ms: Seq<Package>, markers: ClassMarkers, c: DeploymentClass, n: int)
    requires
        0 <= n <= ms.len(),
        n <= usize::MAX,
    ensures
        forall|k: int|
            0 <= k < class_indices(ms, markers, c, n).len() ==> #[trigger] class_indices(
                ms,
                markers,
                c,
                n,
            )[k] < n && class_of(ms[class_indices(ms, markers, c, n)[k] as int], markers) == Some(
                c,
            ),
    decreases n,
{
    if n > 0 {
        lemma_class_indices_members(ms, markers, c, n - 1);
        let prev = class_indices(ms, markers, c, n - 1);
        let cur = class_indices(ms, markers, c, n);
        assert forall|k: int| 0 <= k < cur.len() implies #[trigger] cur[k] < n && class_of(
            ms[cur[k] as int],
            markers,
        ) == Some(c) by {
            if k < prev.len() {
                assert(cur[k] == prev[k]);
            }
        }
    }
}

proof fn lemma_no_class_no_indices(ms: Seq<Package>, markers: ClassMarkers, c: DeploymentClass, n: int)
    requires
        0 <= n <= ms.len(),
        forall|i: int| 0 <= i < ms.len() ==> class_of(#[trigger] ms[i], markers) is None,
    ensures
        class_indices(ms, markers, c, n).len() == 0,
        first_fault(ms, markers, n) is None,
    decreases n,
{
    if n > 0 {
        lemma_no_class_no_indices(ms, markers, c, n - 1);
        assert(class_of(ms[n - 1], markers) is None);
        assert(member_fault(ms[n - 1], markers) is None);
    }
}

proof fn lemma_fault_at(ms: Seq<Package>, markers: ClassMarkers, i: int, n: int)
    requires
        0 <= i < n <= ms.len(),
        first_fault(ms, markers, i) is None,
        member_fault(ms[i], markers) is Some,
    ensures
        first_fault(ms, markers, n) == member_fault(ms[i], markers),
    decreases n,
{
    if n > i + 1 {
        lemma_fault_at(ms, markers, i, n - 1);
    }
}

/// A workspace in which no member carries a class marker builds successfully
/// and makes no toolchain run, so it yields no artifacts.
pub proof fn lemma_unmarked_workspace_builds_nothing(ms: Seq<Package>, markers: ClassMarkers)
    requires
        forall|i: int| 0 <= i < ms.len() ==> class_of(#[trigger] ms[i], markers) is None,
    ensures
        plan_spec(true, ms, markers) == Ok::<Seq<(DeploymentClass, Seq<usize>)>, BuildError>(
            Seq::empty(),
        ),
{
    lemma_no_class_no_indices(ms, markers, DeploymentClass::NativeBinary, ms.len() as int);
    lemma_no_class_no_indices(ms, markers, DeploymentClass::WasmLibrary, ms.len() as int);
    assert(planned_batches(ms, markers) =~= Seq::empty());
}

/// A native member without a "bin" target, after members that are all well
/// configured, fails the build with an error naming it, before any toolchain run.
pub proof fn lemma_missing_binary_target(ms: Seq<Package>, markers: ClassMarkers, i: int)
    requires
        0 <= i < ms.len(),
        first_fault(ms, markers, i) is None,
        class_of(ms[i], markers) == Some(DeploymentClass::NativeBinary),
        !declares_kind(ms[i], "bin"@),
    ensures
        plan_spec(true, ms, markers) == Err::<Seq<(DeploymentClass, Seq<usize>)>, BuildError>(
            BuildError::MissingBinaryTarget(ms[i].name),
        ),
{
    lemma_fault_at(ms, markers, i, ms.len() as int);
}

/// A wasm member without a "cdylib" target, after members that are all well
/// configured, fails the build with an error naming it, before any toolchain run.
pub proof fn lemma_missing_cdylib_target(ms: Seq<Package>, markers: ClassMarkers, i: int)
    requires
        0 <= i < ms.len(),
        first_fault(ms, markers, i) is None,
        class_of(ms[i], markers) == Some(DeploymentClass::WasmLibrary),
        !declares_kind(ms[i], "cdylib"@),
    ensures
        plan_spec(true, ms, markers) == Err::<Seq<(DeploymentClass, Seq<usize>)>, BuildError>(
            BuildError::MissingCdylibTarget(ms[i].name),
        ),
{
    lemma_fault_at(ms, markers, i, ms.len() as int);
}

/// Without a manifest every build fails with `ManifestNotFound`, whatever
/// the workspace holds, however often it is tried.
pub proof fn lemma_missing_manifest(ms1: Seq<Package>, ms2: Seq<Package>, markers: ClassMarkers)
    ensures
        plan_spec(false, ms1, markers) == Err::<Seq<(DeploymentClass, Seq<usize>)>, BuildError>(
            BuildError::ManifestNotFound,
        ),
        plan_spec(false, ms1, markers) == plan_spec(false, ms2, markers),
{
}

/// Positions `2 * k` and `2 * k + 1` of `sel` select the package `names[k]`.
pub open spec fn selects_at(sel: Seq<Seq<char>>, names: Seq<Seq<char>>, k: int) -> bool {
    sel[2 * k] == "--package"@ && sel[2 * k + 1] == names[k]
}

/// The selectors of `n` names are `n` pairs of `--package` and the name.
pub proof fn lemma_selectors(names: Seq<Seq<char>>)
    ensures
        selectors(names).len() == 2 * names.len(),
        forall|k: int| 0 <= k < names.len() ==> #[trigger] selects_at(selectors(names), names, k),
    decreases names.len(),
{
    if names.len() > 0 {
        let prev_names = names.drop_last();
        lemma_selectors(prev_names);
        let prev = selectors(prev_names);
        assert forall|k: int| 0 <= k < names.len() implies #[trigger] selects_at(
            selectors(names),
            names,
            k,
        ) by {
            if k < names.len() - 1 {
                assert(selects_at(prev, prev_names, k));
                assert(prev_names[k] == names[k]);
                assert(selectors(names)[2 * k] == prev[2 * k]);
                assert(selectors(names)[2 * k + 1] == prev[2 * k + 1]);
            } else {
                assert(selectors(names)[2 * k] == "--package"@);
                assert(selectors(names)[2 * k + 1] == names.last());
            }
        }
    }
}

/// The run of `batch` carries one `--package` selector per member of the
/// batch, right after the manifest path, and nothing else between them.
pub open spec fn run_selects_batch(
    ms: Seq<Package>,
    batch: (DeploymentClass, Seq<usize>),
    profile: BuildProfile,
    manifest: Seq<char>,
    jobs: Seq<char>,
) -> bool {
    let names = batch_names(ms, batch.1);
    let args = compile_args_spec(names, profile, batch.0, manifest, jobs);
    let sel = args.subrange(5, 5 + 2 * names.len() as int);
    &&& names.len() == batch.1.len()
    &&& sel == selectors(names)
    &&& forall|k: int| 0 <= k < names.len() ==> #[trigger] selects_at(sel, names, k)
}

/// A build makes at most one toolchain run per class, for exactly the classes
/// that have members, and the run of a class with `n` members carries exactly
/// their `n` package selectors.
pub proof fn lemma_one_run_per_class(
    ms: Seq<Package>,
    markers: ClassMarkers,
    profile: BuildProfile,
    manifest: Seq<char>,
    jobs: Seq<char>,
)
    ensures
        planned_batches(ms, markers).len() <= 2,
        forall|a: int, b: int|
            0 <= a < b < planned_batches(ms, markers).len() ==> planned_batches(ms, markers)[a].0
                != planned_batches(ms, markers)[b].0,
        forall|c: DeploymentClass|
            (exists|a: int|
                0 <= a < planned_batches(ms, markers).len() && planned_batches(ms, markers)[a].0
                    == c) <==> #[trigger] class_indices(ms, markers, c, ms.len() as int).len() > 0,
        forall|a: int|
            0 <= a < planned_batches(ms, markers).len() ==> planned_batches(ms, markers)[a].1
                == class_indices(ms, markers, planned_batches(ms, markers)[a].0, ms.len() as int),
        forall|a: int|
            0 <= a < planned_batches(ms, markers).len() ==> #[trigger] run_selects_batch(
                ms,
                planned_batches(ms, markers)[a],
                profile,
                manifest,
                jobs,
            ),
{
    let bs = planned_batches(ms, markers);
    assert forall|a: int| 0 <= a < bs.len() implies #[trigger] run_selects_batch(
        ms,
        bs[a],
        profile,
        manifest,
        jobs,
    ) by {
        let names = batch_names(ms, bs[a].1);
        let args = compile_args_spec(names, profile, bs[a].0, manifest, jobs);
        lemma_selectors(names);
        assert(args.subrange(5, 5 + 2 * names.len() as int) =~= selectors(names));
    }
    let native = class_indices(ms, markers, DeploymentClass::NativeBinary, ms.len() as int);
    let wasm = class_indices(ms, markers, DeploymentClass::WasmLibrary, ms.len() as int);
    assert forall|c: DeploymentClass|
        (exists|a: int| 0 <= a < bs.len() && bs[a].0 == c) <==> #[trigger] class_indices(
            ms,
            markers,
            c,
            ms.len() as int,
        ).len() > 0 by {
        if class_indices(ms, markers, c, ms.len() as int).len() > 0 {
            if c == DeploymentClass::NativeBinary {
                assert(bs[0].0 == c);
            } else if native.len() > 0 {
                assert(bs[1].0 == c);
            } else {
                assert(bs[0].0 == c);
            }
        }
    }
}

} // verus!
