use shuttle_builder::classify::{class_of_package, classify, ClassMarkers};
use shuttle_builder::model::{
    BuildError, BuildProfile, BuiltService, DeploymentClass, NameError, Package, ToolchainOutcome,
};
use shuttle_builder::naming::pick_service_name;
use shuttle_builder::paths::{join_path, resolve_artifact_path, ArtifactLayout};
use shuttle_builder::plan::plan_build;
use shuttle_builder::toolchain::{
    batch_services, clean_args, clean_result, compile_args, manifest_path, BuildConfig,
};

fn pkg(name: &str, deps: &[&str], kinds: &[&[&str]]) -> Package {
    Package {
        name: name.to_string(),
        dependencies: deps.iter().map(|d| d.to_string()).collect(),
        target_kinds: kinds
            .iter()
            .map(|k| k.iter().map(|s| s.to_string()).collect())
            .collect(),
        manifest_path: format!("/ws/{name}/Cargo.toml"),
    }
}

fn outcome(success: bool, stderr: &str) -> ToolchainOutcome {
    ToolchainOutcome { success, stdout: "out".to_string(), stderr: stderr.to_string() }
}

fn config(profile: BuildProfile, ignore_exit_status: bool) -> BuildConfig {
    BuildConfig { profile, layout: ArtifactLayout::new(String::new()), ignore_exit_status }
}

fn service(name: &str) -> BuiltService {
    BuiltService::new(
        "/ws/target/debug/x".to_string(),
        false,
        name.to_string(),
        "/nonexistent/dir".to_string(),
        "/ws/x/Cargo.toml".to_string(),
    )
}

#[test]
fn built_service_new_keeps_fields() {
    let s = BuiltService::new(
        "/a/b".to_string(),
        true,
        "svc".to_string(),
        "/cwd".to_string(),
        "/a/Cargo.toml".to_string(),
    );
    assert_eq!(s.executable_path, "/a/b");
    assert!(s.is_wasm);
    assert_eq!(s.package_name, "svc");
    assert_eq!(s.working_directory, "/cwd");
    assert_eq!(s.manifest_path, "/a/Cargo.toml");
    assert_eq!(s.clone(), s);
}

#[test]
fn join_path_separators() {
    assert_eq!(join_path("/ws", "target"), "/ws/target");
    assert_eq!(join_path("/ws/", "target"), "/ws/target");
    assert_eq!(join_path("", "target"), "target");
    assert_eq!(manifest_path("/ws"), "/ws/Cargo.toml");
}

#[test]
fn native_artifact_paths_per_profile() {
    let unix = ArtifactLayout::new(String::new());
    let p = resolve_artifact_path(&unix, "/ws", "svc", BuildProfile::Debug, DeploymentClass::NativeBinary);
    assert_eq!(p, "/ws/target/debug/svc");
    let p = resolve_artifact_path(&unix, "/ws", "svc", BuildProfile::Release, DeploymentClass::NativeBinary);
    assert_eq!(p, "/ws/target/release/svc");
    let windows = ArtifactLayout::new(".exe".to_string());
    let p = resolve_artifact_path(&windows, "/ws", "svc", BuildProfile::Debug, DeploymentClass::NativeBinary);
    assert_eq!(p, "/ws/target/debug/svc.exe");
}

#[test]
fn wasm_artifact_paths_ignore_exe_suffix() {
    let windows = ArtifactLayout::new(".exe".to_string());
    let p = resolve_artifact_path(&windows, "/ws", "svc", BuildProfile::Debug, DeploymentClass::WasmLibrary);
    assert_eq!(p, "/ws/target/wasm32-wasi/debug/svc.wasm");
    let unix = ArtifactLayout::new(String::new());
    let p = resolve_artifact_path(&unix, "/ws", "svc", BuildProfile::Release, DeploymentClass::WasmLibrary);
    assert_eq!(p, "/ws/target/wasm32-wasi/release/svc.wasm");
}

#[test]
fn target_dir_override() {
    let layout = ArtifactLayout { target_dir: Some("/cache/out".to_string()), exe_suffix: String::new() };
    let p = resolve_artifact_path(&layout, "/ws", "svc", BuildProfile::Debug, DeploymentClass::NativeBinary);
    assert_eq!(p, "/cache/out/debug/svc");
}

#[test]
fn classes_follow_marker_dependencies() {
    let m = ClassMarkers::standard();
    assert_eq!(m.native, "shuttle-runtime");
    assert_eq!(m.wasm, "shuttle-next");
    let native = pkg("a", &["serde", "shuttle-runtime"], &[&["bin"]]);
    let wasm = pkg("b", &["shuttle-next"], &[&["cdylib"]]);
    let both = pkg("c", &["shuttle-runtime", "shuttle-next"], &[&["cdylib"]]);
    let none = pkg("d", &["serde"], &[&["lib"]]);
    assert_eq!(class_of_package(&native, &m), Some(DeploymentClass::NativeBinary));
    assert_eq!(class_of_package(&wasm, &m), Some(DeploymentClass::WasmLibrary));
    assert_eq!(class_of_package(&both, &m), Some(DeploymentClass::WasmLibrary));
    assert_eq!(class_of_package(&none, &m), None);
}

#[test]
fn synthetic_markers() {
    let m = ClassMarkers { native: "rt".to_string(), wasm: "wa".to_string() };
    let ms = vec![pkg("a", &["wa"], &[&["lib", "cdylib"]]), pkg("b", &["rt"], &[&["bin"]])];
    let c = classify(&ms, &m).unwrap();
    assert_eq!(c.native, vec![1]);
    assert_eq!(c.wasm, vec![0]);
}

#[test]
fn unmarked_workspace_builds_nothing() {
    let m = ClassMarkers::standard();
    let ms = vec![pkg("a", &["serde"], &[&["bin"]]), pkg("b", &[], &[])];
    let plan = plan_build(true, &ms, &m).unwrap();
    assert!(plan.is_empty());
    assert!(plan_build(true, &Vec::new(), &m).unwrap().is_empty());
}

#[test]
fn native_member_without_bin_fails() {
    let m = ClassMarkers::standard();
    let ms = vec![
        pkg("ok", &["shuttle-runtime"], &[&["bin"]]),
        pkg("svc", &["shuttle-runtime"], &[&["lib"]]),
    ];
    assert_eq!(
        plan_build(true, &ms, &m).err(),
        Some(BuildError::MissingBinaryTarget("svc".to_string()))
    );
}

#[test]
fn wasm_member_without_cdylib_fails() {
    let m = ClassMarkers::standard();
    let ms = vec![pkg("svc", &["shuttle-next"], &[&["lib"], &["bin"]])];
    assert_eq!(
        plan_build(true, &ms, &m).err(),
        Some(BuildError::MissingCdylibTarget("svc".to_string()))
    );
}

#[test]
fn first_misconfigured_member_is_reported() {
    let m = ClassMarkers::standard();
    let ms = vec![
        pkg("w", &["shuttle-next"], &[&["bin"]]),
        pkg("n", &["shuttle-runtime"], &[&["lib"]]),
    ];
    assert_eq!(
        plan_build(true, &ms, &m).err(),
        Some(BuildError::MissingCdylibTarget("w".to_string()))
    );
}

#[test]
fn missing_manifest_fails_every_time() {
    let m = ClassMarkers::standard();
    let ms = vec![pkg("a", &["shuttle-runtime"], &[&["bin"]])];
    assert_eq!(plan_build(false, &ms, &m).err(), Some(BuildError::ManifestNotFound));
    assert_eq!(plan_build(false, &ms, &m).err(), Some(BuildError::ManifestNotFound));
}

#[test]
fn plan_has_one_batch_per_class_native_first() {
    let m = ClassMarkers::standard();
    let ms = vec![
        pkg("w1", &["shuttle-next"], &[&["cdylib"]]),
        pkg("n1", &["shuttle-runtime"], &[&["bin"]]),
        pkg("x", &[], &[]),
        pkg("n2", &["shuttle-runtime"], &[&["bin"], &["lib"]]),
    ];
    let plan = plan_build(true, &ms, &m).unwrap();
    assert_eq!(plan.len(), 2);
    assert_eq!(plan[0].class, DeploymentClass::NativeBinary);
    assert_eq!(plan[0].packages, vec![1, 3]);
    assert_eq!(plan[1].class, DeploymentClass::WasmLibrary);
    assert_eq!(plan[1].packages, vec![0]);
}

#[test]
fn one_invocation_carries_all_selectors() {
    let ms = vec![
        pkg("a", &["shuttle-runtime"], &[&["bin"]]),
        pkg("b", &["shuttle-runtime"], &[&["bin"]]),
        pkg("c", &["shuttle-runtime"], &[&["bin"]]),
    ];
    let args = compile_args(&ms, &vec![0, 1, 2], BuildProfile::Debug, DeploymentClass::NativeBinary, "/ws", "8");
    let expected: Vec<String> = [
        "build", "-j", "8", "--manifest-path", "/ws/Cargo.toml", "--package", "a", "--package", "b",
        "--package", "c", "--profile", "dev",
    ]
    .iter()
    .map(|s| s.to_string())
    .collect();
    assert_eq!(args, expected);
    assert_eq!(args.iter().filter(|a| a.as_str() == "--package").count(), 3);
}

#[test]
fn wasm_release_invocation_targets_wasi() {
    let ms = vec![pkg("w", &["shuttle-next"], &[&["cdylib"]])];
    let args = compile_args(&ms, &vec![0], BuildProfile::Release, DeploymentClass::WasmLibrary, "/ws/", "2");
    let expected: Vec<String> = [
        "build", "-j", "2", "--manifest-path", "/ws/Cargo.toml", "--package", "w", "--profile",
        "release", "--target", "wasm32-wasi",
    ]
    .iter()
    .map(|s| s.to_string())
    .collect();
    assert_eq!(args, expected);
}

#[test]
fn batch_services_describe_each_member() {
    let ms = vec![
        pkg("a", &["shuttle-next"], &[&["cdylib"]]),
        pkg("b", &["shuttle-next"], &[&["cdylib"]]),
    ];
    let cfg = config(BuildProfile::Debug, false);
    let out = batch_services(&ms, &vec![1, 0], DeploymentClass::WasmLibrary, &cfg, "/ws", "/here", &outcome(true, ""))
        .unwrap();
    assert_eq!(out.len(), 2);
    assert_eq!(
        out[0],
        BuiltService::new(
            "/ws/target/wasm32-wasi/debug/b.wasm".to_string(),
            true,
            "b".to_string(),
            "/here".to_string(),
            "/ws/b/Cargo.toml".to_string(),
        )
    );
    assert_eq!(out[1].package_name, "a");
    assert_eq!(out[1].executable_path, "/ws/target/wasm32-wasi/debug/a.wasm");
}

#[test]
fn failed_toolchain_run_is_an_error() {
    let ms = vec![pkg("a", &["shuttle-runtime"], &[&["bin"]])];
    let cfg = config(BuildProfile::Release, false);
    let r = batch_services(&ms, &vec![0], DeploymentClass::NativeBinary, &cfg, "/ws", "/here", &outcome(false, "boom"));
    assert_eq!(r, Err(BuildError::CompilationFailed("boom".to_string())));
}

#[test]
fn failed_run_ignored_when_asked() {
    let ms = vec![pkg("a", &["shuttle-runtime"], &[&["bin"]])];
    let cfg = config(BuildProfile::Release, true);
    let r = batch_services(&ms, &vec![0], DeploymentClass::NativeBinary, &cfg, "/ws", "/here", &outcome(false, "boom"))
        .unwrap();
    assert_eq!(r[0].executable_path, "/ws/target/release/a");
    assert!(!r[0].is_wasm);
}

#[test]
fn clean_arguments() {
    let expected: Vec<String> = ["clean", "--manifest-path", "/ws/Cargo.toml", "--profile", "release"]
        .iter()
        .map(|s| s.to_string())
        .collect();
    assert_eq!(clean_args("/ws", BuildProfile::Release), expected);
    assert_eq!(clean_args("/ws", BuildProfile::Debug)[4], "dev");
}

#[test]
fn clean_results() {
    let ok = ToolchainOutcome { success: true, stdout: "so".to_string(), stderr: "se".to_string() };
    assert_eq!(clean_result(ok), Ok(vec!["se".to_string(), "so".to_string()]));
    let bad = ToolchainOutcome { success: false, stdout: "so".to_string(), stderr: "se".to_string() };
    assert_eq!(clean_result(bad), Err(BuildError::CleanFailed("se".to_string())));
}

#[test]
fn override_name_wins() {
    let s = service("svc");
    assert_eq!(s.service_name(Some("name = \"custom\"\n")), Ok("custom".to_string()));
}

#[test]
fn absent_override_uses_package_name() {
    let s = service("svc");
    assert_eq!(s.service_name(None), Ok("svc".to_string()));
}

#[test]
fn override_without_name_key_uses_package_name() {
    let s = service("svc");
    assert_eq!(s.service_name(Some("other = \"x\"\n")), Ok("svc".to_string()));
    assert_eq!(s.service_name(Some("name = 3\n")), Ok("svc".to_string()));
    assert_eq!(s.service_name(Some("this is not toml [")), Ok("svc".to_string()));
}

#[test]
fn invalid_override_name_uses_package_name() {
    let s = service("svc");
    assert_eq!(s.service_name(Some("name = \"-bad\"\n")), Ok("svc".to_string()));
}

#[test]
fn invalid_package_name_is_an_error() {
    let s = service("bad name!");
    assert_eq!(s.service_name(None), Err(NameError::InvalidName("bad name!".to_string())));
    assert_eq!(s.service_name(Some("name = \"fine\"")), Ok("fine".to_string()));
}

#[test]
fn pick_service_name_cases() {
    let pkg_name = "pkg".to_string();
    assert_eq!(pick_service_name(Some("o".to_string()), true, &pkg_name, true), Ok("o".to_string()));
    assert_eq!(pick_service_name(Some("o".to_string()), false, &pkg_name, true), Ok("pkg".to_string()));
    assert_eq!(pick_service_name(None, true, &pkg_name, true), Ok("pkg".to_string()));
    assert_eq!(
        pick_service_name(None, false, &pkg_name, false),
        Err(NameError::InvalidName("pkg".to_string()))
    );
}
