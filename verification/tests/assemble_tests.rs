use plugin_packager::assemble::{
    plan_assemble, AssembleAction, AssembleDirective, AssembleEvent, AssembleTask, PackagingError,
};
use plugin_packager::manifest::{PlatformManifest, RawManifest};
use plugin_packager::platform::parse_node_platform;

fn raw_manifest(name: &str, version: &str, license: &str) -> RawManifest {
    RawManifest {
        name: Some(name.to_string()),
        version: Some(version.to_string()),
        license: Some(license.to_string()),
        keywords: vec![],
        author: String::new(),
        homepage: String::new(),
        publish_config: vec![],
        repository: vec![],
        bugs: vec![],
    }
}

#[test]
fn plan_builds_the_unit_paths() {
    let platform = parse_node_platform("linux-x64-gnu").unwrap();
    let plan = plan_assemble("/out/pkgs", "/out/build", "foo", &platform);
    assert_eq!(plan.package_dir, "/out/pkgs/foo-linux-x64-gnu");
    assert_eq!(plan.built_bin_path, "/out/build/foo.linux-x64-gnu.so");
    assert_eq!(plan.entry_filename, "lib.so");
    assert_eq!(plan.bin_dest, "/out/pkgs/foo-linux-x64-gnu/lib.so");
    assert_eq!(plan.manifest_dest, "/out/pkgs/foo-linux-x64-gnu/package.json");
}

#[test]
fn plan_uses_each_platforms_native_extension() {
    let win = parse_node_platform("win32-x64-msvc").unwrap();
    let mac = parse_node_platform("darwin-arm64").unwrap();
    assert_eq!(plan_assemble("p", "b", "x", &win).built_bin_path, "b/x.win32-x64-msvc.dll");
    assert_eq!(plan_assemble("p", "b", "x", &mac).entry_filename, "lib.dylib");
}

/// Drives one unit through every step with a compliant filesystem;
/// returns the derived manifest and the reported package directory.
fn drive_success(crate_name: &str, token: &str) -> (PlatformManifest, String) {
    let platform = parse_node_platform(token).unwrap();
    let (mut task, first) = AssembleTask::start("/out/pkgs", "/out/build", crate_name, platform);
    let plan = task.plan.clone();
    assert_eq!(first, AssembleAction::CreateDir { path: plan.package_dir.clone() });

    let d = task.step(AssembleEvent::DirCreated { error: None });
    assert_eq!(
        d,
        AssembleDirective::Next(AssembleAction::ProbeFile { path: plan.built_bin_path.clone() })
    );
    let d = task.step(AssembleEvent::FileProbed { present: true });
    assert_eq!(
        d,
        AssembleDirective::Next(AssembleAction::CopyFile {
            from: plan.built_bin_path.clone(),
            to: plan.bin_dest.clone(),
        })
    );
    let d = task.step(AssembleEvent::FileCopied { error: None });
    assert_eq!(
        d,
        AssembleDirective::Next(AssembleAction::LocateManifestDir {
            crate_name: crate_name.to_string(),
        })
    );
    let d = task.step(AssembleEvent::ManifestDirLocated { dir: Some("/src/foo".to_string()) });
    assert_eq!(
        d,
        AssembleDirective::Next(AssembleAction::ProbeFile {
            path: "/src/foo/package.json".to_string(),
        })
    );
    let d = task.step(AssembleEvent::FileProbed { present: true });
    assert_eq!(
        d,
        AssembleDirective::Next(AssembleAction::ReadManifest {
            path: "/src/foo/package.json".to_string(),
        })
    );
    let d = task.step(AssembleEvent::ManifestRead {
        result: Ok(raw_manifest("foo", "1.0.0", "MIT")),
    });
    let manifest = match d {
        AssembleDirective::Next(AssembleAction::WriteManifest { path, manifest }) => {
            assert_eq!(path, plan.manifest_dest);
            manifest
        },
        other => panic!("expected a manifest write, got {:?}", other),
    };
    let d = task.step(AssembleEvent::ManifestWritten { error: None });
    match d {
        AssembleDirective::Done { package_dir } => (manifest, package_dir),
        other => panic!("expected completion, got {:?}", other),
    }
}

#[test]
fn successful_unit_walks_every_step_in_order() {
    let (manifest, dir) = drive_success("foo", "linux-x64-gnu");
    assert_eq!(dir, "/out/pkgs/foo-linux-x64-gnu");
    assert_eq!(manifest.name, "foo-linux-x64-gnu");
    assert_eq!(manifest.main, "lib.so");
    assert_eq!(manifest.files, vec!["lib.so"]);
}

#[test]
fn rerunning_a_unit_is_deterministic() {
    let (m1, d1) = drive_success("foo", "linux-x64-gnu");
    let (m2, d2) = drive_success("foo", "linux-x64-gnu");
    assert_eq!(d1, d2);
    assert_eq!(m1, m2);
    let platform = parse_node_platform("linux-x64-gnu").unwrap();
    let p1 = plan_assemble("/out/pkgs", "/out/build", "foo", &platform);
    let p2 = plan_assemble("/out/pkgs", "/out/build", "foo", &platform);
    assert_eq!(p1, p2);
}

#[test]
fn missing_binary_fails_the_unit_with_the_expected_path() {
    let platform = parse_node_platform("linux-x64-musl").unwrap();
    let (mut task, _) = AssembleTask::start("/out/pkgs", "/out/build", "b", platform);
    let _ = task.step(AssembleEvent::DirCreated { error: None });
    let d = task.step(AssembleEvent::FileProbed { present: false });
    assert_eq!(
        d,
        AssembleDirective::Fail(PackagingError::BuiltBinaryMissing {
            path: "/out/build/b.linux-x64-musl.so".to_string(),
        })
    );
}

#[test]
fn directory_create_failure_names_path_and_cause() {
    let platform = parse_node_platform("darwin-x64").unwrap();
    let (mut task, _) = AssembleTask::start("/p", "/b", "foo", platform);
    let d = task.step(AssembleEvent::DirCreated { error: Some("permission denied".to_string()) });
    assert_eq!(
        d,
        AssembleDirective::Fail(PackagingError::DirectoryCreateFailed {
            path: "/p/foo-darwin-x64".to_string(),
            cause: "permission denied".to_string(),
        })
    );
}

#[test]
fn copy_failure_names_both_paths_and_the_cause() {
    let platform = parse_node_platform("darwin-x64").unwrap();
    let (mut task, _) = AssembleTask::start("/p", "/b", "foo", platform);
    let _ = task.step(AssembleEvent::DirCreated { error: None });
    let _ = task.step(AssembleEvent::FileProbed { present: true });
    let d = task.step(AssembleEvent::FileCopied { error: Some("no space".to_string()) });
    assert_eq!(
        d,
        AssembleDirective::Fail(PackagingError::BinaryCopyFailed {
            from: "/b/foo.darwin-x64.dylib".to_string(),
            to: "/p/foo-darwin-x64/lib.dylib".to_string(),
            cause: "no space".to_string(),
        })
    );
}

#[test]
fn unresolved_manifest_directory_names_the_crate() {
    let platform = parse_node_platform("darwin-x64").unwrap();
    let (mut task, _) = AssembleTask::start("/p", "/b", "foo", platform);
    let _ = task.step(AssembleEvent::DirCreated { error: None });
    let _ = task.step(AssembleEvent::FileProbed { present: true });
    let _ = task.step(AssembleEvent::FileCopied { error: None });
    let d = task.step(AssembleEvent::ManifestDirLocated { dir: None });
    assert_eq!(
        d,
        AssembleDirective::Fail(PackagingError::SourceManifestNotFound {
            crate_name: "foo".to_string(),
            dir: String::new(),
        })
    );
}

#[test]
fn absent_source_manifest_fails_with_crate_and_directory() {
    let platform = parse_node_platform("darwin-x64").unwrap();
    let (mut task, _) = AssembleTask::start("/p", "/b", "foo", platform);
    let _ = task.step(AssembleEvent::DirCreated { error: None });
    let _ = task.step(AssembleEvent::FileProbed { present: true });
    let _ = task.step(AssembleEvent::FileCopied { error: None });
    let _ = task.step(AssembleEvent::ManifestDirLocated { dir: Some("/src/foo".to_string()) });
    let d = task.step(AssembleEvent::FileProbed { present: false });
    assert_eq!(
        d,
        AssembleDirective::Fail(PackagingError::SourceManifestNotFound {
            crate_name: "foo".to_string(),
            dir: "/src/foo".to_string(),
        })
    );
}

#[test]
fn invalid_manifest_fails_the_unit() {
    let platform = parse_node_platform("darwin-x64").unwrap();
    let (mut task, _) = AssembleTask::start("/p", "/b", "foo", platform);
    let _ = task.step(AssembleEvent::DirCreated { error: None });
    let _ = task.step(AssembleEvent::FileProbed { present: true });
    let _ = task.step(AssembleEvent::FileCopied { error: None });
    let _ = task.step(AssembleEvent::ManifestDirLocated { dir: Some("/src/foo".to_string()) });
    let _ = task.step(AssembleEvent::FileProbed { present: true });
    let mut raw = raw_manifest("foo", "1.0.0", "MIT");
    raw.license = None;
    let d = task.step(AssembleEvent::ManifestRead { result: Ok(raw) });
    assert!(matches!(
        d,
        AssembleDirective::Fail(PackagingError::ManifestInvalid(_))
    ));
}

#[test]
fn unreadable_manifest_fails_with_cause() {
    let platform = parse_node_platform("darwin-x64").unwrap();
    let (mut task, _) = AssembleTask::start("/p", "/b", "foo", platform);
    let _ = task.step(AssembleEvent::DirCreated { error: None });
    let _ = task.step(AssembleEvent::FileProbed { present: true });
    let _ = task.step(AssembleEvent::FileCopied { error: None });
    let _ = task.step(AssembleEvent::ManifestDirLocated { dir: Some("/s".to_string()) });
    let _ = task.step(AssembleEvent::FileProbed { present: true });
    let d = task.step(AssembleEvent::ManifestRead { result: Err("bad json".to_string()) });
    assert_eq!(
        d,
        AssembleDirective::Fail(PackagingError::ManifestUnreadable {
            path: "/s/package.json".to_string(),
            cause: "bad json".to_string(),
        })
    );
}

#[test]
fn write_failure_fails_the_unit() {
    let platform = parse_node_platform("darwin-x64").unwrap();
    let (mut task, _) = AssembleTask::start("/p", "/b", "foo", platform);
    let _ = task.step(AssembleEvent::DirCreated { error: None });
    let _ = task.step(AssembleEvent::FileProbed { present: true });
    let _ = task.step(AssembleEvent::FileCopied { error: None });
    let _ = task.step(AssembleEvent::ManifestDirLocated { dir: Some("/s".to_string()) });
    let _ = task.step(AssembleEvent::FileProbed { present: true });
    let _ = task.step(AssembleEvent::ManifestRead {
        result: Ok(raw_manifest("foo", "1.0.0", "MIT")),
    });
    let d = task.step(AssembleEvent::ManifestWritten { error: Some("disk full".to_string()) });
    assert_eq!(
        d,
        AssembleDirective::Fail(PackagingError::ManifestWriteFailed {
            path: "/p/foo-darwin-x64/package.json".to_string(),
            cause: "disk full".to_string(),
        })
    );
}
