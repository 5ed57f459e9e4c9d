use vstd::prelude::*;

use crate::model::{BuildError, DeploymentClass, Package};

verus! {

/// The dependency names that put a package in each deployment class.
pub struct ClassMarkers {
    pub native: String,
    pub wasm: String,
}

impl ClassMarkers {
    /// The markers of the service runtime: `shuttle-runtime` for native
    /// binaries, `shuttle-next` for wasm libraries.
    pub fn standard() -> (r: Self)
        ensures
            r.native@ == "shuttle-runtime"@,
            r.wasm@ == "shuttle-next"@,
    {
        ClassMarkers {
            native: String::from_str("shuttle-runtime"),
            wasm: String::from_str("shuttle-next"),
        }
    }
}

pub open spec fn has_dependency(p: Package, name: Seq<char>) -> bool {
    exists|i: int| 0 <= i < p.dependencies.len() && #[trigger] p.dependencies[i]@ == name
}

pub open spec fn declares_kind(p: Package, kind: Seq<char>) -> bool {
    exists|i: int, j: int|
        0 <= i < p.target_kinds.len() && 0 <= j < p.target_kinds[i].len()
            && #[trigger] p.target_kinds[i][j]@ == kind
}

/// The class of a package; a package that carries the wasm marker is a wasm
/// library whatever else it declares.
pub open spec fn class_of(p: Package, markers: ClassMarkers) -> Option<DeploymentClass> {
    if has_dependency(p, markers.wasm@) {
        Some(DeploymentClass::WasmLibrary)
    } else if has_dependency(p, markers.native@) {
        Some(DeploymentClass::NativeBinary)
    } else {
        None
    }
}

/// What is wrong with a member, if its targets do not fit its class.
pub open spec fn member_fault(p: Package, markers: ClassMarkers) -> Option<BuildError> {
    match class_of(p, markers) {
        Some(DeploymentClass::WasmLibrary) => if declares_kind(p, "cdylib"@) {
            None
        } else {
            Some(BuildError::MissingCdylibTarget(p.name))
        },
        Some(DeploymentClass::NativeBinary) => if declares_kind(p, "bin"@) {
            None
        } else {
            Some(BuildError::MissingBinaryTarget(p.name))
        },
        None => None,
    }
}

/// The fault of the first misconfigured member among the first `n`.
pub open spec fn first_fault(ms: Seq<Package>, markers: ClassMarkers, n: int) -> Option<BuildError>
    decreases n,
{
    if n <= 0 {
        None
    } else {
        match first_fault(ms, markers, n - 1) {
            Some(e) => Some(e),
            None => member_fault(ms[n - 1], markers),
        }
    }
}

/// The indices, in order, of the first `n` members that fall in class `c`.
pub open spec fn class_indices(
    ms: Seq<Package>,
    markers: ClassMarkers,
    c: DeploymentClass,
    n: int,
) -> Seq<usize>
    decreases n,
{
    if n <= 0 {
        Seq::empty()
    } else if class_of(ms[n - 1], markers) == Some(c) {
        class_indices(ms, markers, c, n - 1).push((n - 1) as usize)
    } else {
        class_indices(ms, markers, c, n - 1)
    }
}

/// The members of each class, by index into the workspace's member list.
pub struct Classified {
    pub native: Vec<usize>,
    pub wasm: Vec<usize>,
}

/// Whether the package depends on a crate named `name`.
pub fn depends_on(p: &Package, name: &String) -> (r: bool)
    ensures
        r == has_dependency(*p, name@),
{
    let mut i: usize = 0;
    while i < p.dependencies.len()
        invariant
            i <= p.dependencies.len(),
            forall|k: int| 0 <= k < i ==> p.dependencies[k]@ != name@,
        decreases p.dependencies.len() - i,
    {
        if p.dependencies[i].eq(name) {
            return true;
        }
        i = i + 1;
    }
    false
}

/// Whether one of the package's targets has the kind tag `kind`.
pub fn has_target_kind(p: &Package, kind: &String) -> (r: bool)
    ensures
        r == declares_kind(*p, kind@),
{
    let mut i: usize = 0;
    while i < p.target_kinds.len()
        invariant
            i <= p.target_kinds.len(),
            forall|a: int, b: int|
                0 <= a < i && 0 <= b < p.target_kinds[a].len() ==> p.target_kinds[a][b]@ != kind@,
        decreases p.target_kinds.len() - i,
    {
        let kinds = &p.target_kinds[i];
        let mut j: usize = 0;
        while j < kinds.len()
            invariant
                j <= kinds.len(),
                i < p.target_kinds.len(),
                kinds == p.target_kinds[i as int],
                forall|b: int| 0 <= b < j ==> kinds[b]@ != kind@,
            decreases kinds.len() - j,
        {
            if kinds[j].eq(kind) {
                assert(p.target_kinds[i as int][j as int]@ == kind@);
                assert(declares_kind(*p, kind@));
                return true;
            }
            j = j + 1;
        }
        i = i + 1;
    }
    false
}

/// The deployment class of a package, if it has one.
pub fn class_of_package(p: &Package, markers: &ClassMarkers) -> (r: Option<DeploymentClass>)
    ensures
        r == class_of(*p, *markers),
{
    if depends_on(p, &markers.wasm) {
        Some(DeploymentClass::WasmLibrary)
    } else if depends_on(p, &markers.native) {
        Some(DeploymentClass::NativeBinary)
    } else {
        None
    }
}

/// Checks that a member declares the target kind its class requires.
pub fn check_member(p: &Package, markers: &ClassMarkers) -> (r: Result<(), BuildError>)
    ensures
        r is Ok <==> member_fault(*p, *markers) is None,
        r is Err ==> member_fault(*p, *markers) == Some(r->Err_0),
{
    match class_of_package(p, markers) {
        Some(DeploymentClass::WasmLibrary) => if has_target_kind(p, &String::from_str("cdylib")) {
            Ok(())
        } else {
            Err(BuildError::MissingCdylibTarget(p.name.clone()))
        },
        Some(DeploymentClass::NativeBinary) => if has_target_kind(p, &String::from_str("bin")) {
            Ok(())
        } else {
            Err(BuildError::MissingBinaryTarget(p.name.clone()))
        },
        None => Ok(()),
    }
}

/// Sorts the members into deployment classes, keeping their order, and stops
/// at the first member whose targets do not fit its class. Members of no
/// class are left out.
pub fn classify(members: &Vec<Package>, markers: &ClassMarkers) -> (r: Result<Classified, BuildError>)
    ensures
        match first_fault(members@, *markers, members.len() as int) {
            Some(e) => r == Err::<Classified, BuildError>(e),
            None => r is Ok && r->Ok_0.native@ == class_indices(
                members@,
                *markers,
                DeploymentClass::NativeBinary,
                members.len() as int,
            ) && r->Ok_0.wasm@ == class_indices(
                members@,
                *markers,
                DeploymentClass::WasmLibrary,
                members.len() as int,
            ),
        },
{
    let mut native: Vec<usize> = Vec::new();
    let mut wasm: Vec<usize> = Vec::new();
    let mut i: usize = 0;
    while i < members.len()
        invariant
            i <= members.len(),
            first_fault(members@, *markers, i as int) is None,
            native@ == class_indices(members@, *markers, DeploymentClass::NativeBinary, i as int),
            wasm@ == class_indices(members@, *markers, DeploymentClass::WasmLibrary, i as int),
        decreases members.len() - i,
    {
        let p = &members[i];
        match check_member(p, markers) {
            Ok(()) => {},
            Err(e) => {
                proof {
                    lemma_fault_persists(members@, *markers, i as int + 1, members.len() as int);
                }
                return Err(e);
            },
        }
        match class_of_package(p, markers) {
            Some(DeploymentClass::NativeBinary) => native.push(i),
            Some(DeploymentClass::WasmLibrary) => wasm.push(i),
            None => {},
        }
        i = i + 1;
    }
    Ok(Classified { native, wasm })
}

/// Once a fault is found among the first `a` members, it stays the first.
pub proof fn lemma_fault_persists(ms: Seq<Package>, markers: ClassMarkers, a: int, b: int)
    requires
        0 < a <= b,
        first_fault(ms, markers, a) is Some,
    ensures
        first_fault(ms, markers, b) == first_fault(ms, markers, a),
    decreases b - a,
{
    if b > a {
        lemma_fault_persists(ms, markers, a, b - 1);
    }
}

} // verus!
