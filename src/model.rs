use vstd::prelude::*;

verus! {

/// One member of a workspace, as the workspace metadata reports it.
#[derive(Clone, Debug)]
pub struct Package {
    pub name: String,
    pub dependencies: Vec<String>,
    /// The kind tags ("bin", "cdylib", ...) of each declared target.
    pub target_kinds: Vec<Vec<String>>,
    pub manifest_path: String,
}

/// How a service is built and deployed.
#[derive(Clone, Copy, Debug, PartialEq, Eq, Structural)]
pub enum DeploymentClass {
    NativeBinary,
    WasmLibrary,
}

/// The build configuration, which decides the output directory and the
/// toolchain's profile flag.
#[derive(Clone, Copy, Debug, PartialEq, Eq, Structural)]
pub enum BuildProfile {
    Debug,
    Release,
}

/// What the toolchain reported for one run.
#[derive(Clone, Debug)]
pub struct ToolchainOutcome {
    pub success: bool,
    pub stdout: String,
    pub stderr: String,
}

/// A compiled service: where its artifact is expected and where it came from.
#[derive(Clone, Debug, Eq)]
pub struct BuiltService {
    pub executable_path: String,
    pub is_wasm: bool,
    pub package_name: String,
    pub working_directory: String,
    pub manifest_path: String,
}

/// Why a build or a clean did not succeed.
#[derive(Clone, Debug, PartialEq, Eq)]
pub enum BuildError {
    ManifestNotFound,
    MetadataError(String),
    MissingBinaryTarget(String),
    MissingCdylibTarget(String),
    CompilationFailed(String),
    CleanFailed(String),
}

/// Why no service name could be resolved.
#[derive(Clone, Debug, PartialEq, Eq)]
pub enum NameError {
    InvalidName(String),
}

impl BuiltService {
    pub fn new(
        executable_path: String,
        is_wasm: bool,
        package_name: String,
        working_directory: String,
        manifest_path: String,
    ) -> (r: Self)
        ensures
            r.executable_path == executable_path,
            r.is_wasm == is_wasm,
            r.package_name == package_name,
            r.working_directory == working_directory,
            r.manifest_path == manifest_path,
    {
        BuiltService { executable_path, is_wasm, package_name, working_directory, manifest_path }
    }
}

impl PartialEq for BuiltService {
    fn eq(&self, o: &BuiltService) -> (r: bool) {
        self.is_wasm == o.is_wasm && self.executable_path == o.executable_path
            && self.package_name == o.package_name && self.working_directory
            == o.working_directory && self.manifest_path == o.manifest_path
    }
}

impl vstd::std_specs::cmp::PartialEqSpecImpl for BuiltService {
    open spec fn obeys_eq_spec() -> bool {
        true
    }

    open spec fn eq_spec(&self, o: &BuiltService) -> bool {
        &&& self.is_wasm == o.is_wasm
        &&& self.executable_path@ == o.executable_path@
        &&& self.package_name@ == o.package_name@
        &&& self.working_directory@ == o.working_directory@
        &&& self.manifest_path@ == o.manifest_path@
    }
}

} // verus!
