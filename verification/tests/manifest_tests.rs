use plugin_packager::manifest::{
    derive_platform_manifest, parse_source, ManifestField, ManifestMissingField, RawManifest,
};
use plugin_packager::platform::{parse_node_platform, NodeArch, NodePlatform};

fn raw(name: Option<&str>, version: Option<&str>, license: Option<&str>) -> RawManifest {
    RawManifest {
        name: name.map(|s| s.to_string()),
        version: version.map(|s| s.to_string()),
        license: license.map(|s| s.to_string()),
        keywords: vec![],
        author: String::new(),
        homepage: String::new(),
        publish_config: vec![],
        repository: vec![],
        bugs: vec![],
    }
}

#[test]
fn missing_fields_are_reported_in_order() {
    assert_eq!(
        parse_source(raw(None, None, None)),
        Err(ManifestMissingField(ManifestField::Name))
    );
    assert_eq!(
        parse_source(raw(Some("foo"), None, None)),
        Err(ManifestMissingField(ManifestField::Version))
    );
    assert_eq!(
        parse_source(raw(Some("foo"), Some("1.0.0"), None)),
        Err(ManifestMissingField(ManifestField::License))
    );
}

#[test]
fn empty_mandatory_field_counts_as_missing() {
    assert_eq!(
        parse_source(raw(Some(""), Some("1.0.0"), Some("MIT"))),
        Err(ManifestMissingField(ManifestField::Name))
    );
    assert_eq!(
        parse_source(raw(Some("foo"), Some(""), Some("MIT"))),
        Err(ManifestMissingField(ManifestField::Version))
    );
}

#[test]
fn complete_manifest_passes_fields_through() {
    let mut r = raw(Some("foo"), Some("1.0.0"), Some("MIT"));
    r.keywords = vec!["a".to_string(), "b".to_string()];
    r.author = "someone".to_string();
    r.homepage = "https://example.invalid".to_string();
    r.repository = vec![("type".to_string(), "git".to_string())];
    let m = parse_source(r).unwrap();
    assert_eq!(m.name, "foo");
    assert_eq!(m.version, "1.0.0");
    assert_eq!(m.license, "MIT");
    assert_eq!(m.keywords, vec!["a", "b"]);
    assert_eq!(m.author, "someone");
    assert_eq!(m.homepage, "https://example.invalid");
    assert_eq!(m.repository, vec![("type".to_string(), "git".to_string())]);
}

#[test]
fn derived_manifest_for_linux_x64_gnu() {
    let source = parse_source(raw(Some("foo"), Some("1.0.0"), Some("MIT"))).unwrap();
    let platform = parse_node_platform("linux-x64-gnu").unwrap();
    let m = derive_platform_manifest(source, &platform, "libfoo.so");
    assert_eq!(m.name, "foo-linux-x64-gnu");
    assert_eq!(
        m.description,
        "This package is part of foo. This package will be installed only for 'linux-x64-gnu'."
    );
    assert_eq!(m.os, vec![NodePlatform::Linux]);
    assert_eq!(m.os[0].token_str(), "linux");
    assert_eq!(m.cpu, vec![NodeArch::X64]);
    assert_eq!(m.cpu[0].token_str(), "x64");
    assert_eq!(m.files, vec!["libfoo.so"]);
    assert_eq!(m.main, "libfoo.so");
    assert_eq!(m.version, "1.0.0");
    assert_eq!(m.license, "MIT");
}

#[test]
fn derived_manifest_passes_optional_fields_through() {
    let mut r = raw(Some("foo"), Some("2.1.0"), Some("Apache-2.0"));
    r.keywords = vec!["swc".to_string()];
    r.publish_config = vec![("registry".to_string(), "https://example.invalid".to_string())];
    r.bugs = vec![("url".to_string(), "https://example.invalid/bugs".to_string())];
    let source = parse_source(r).unwrap();
    let platform = parse_node_platform("win32-x64-msvc").unwrap();
    let m = derive_platform_manifest(source, &platform, "lib.dll");
    assert_eq!(m.name, "foo-win32-x64-msvc");
    assert_eq!(m.keywords, vec!["swc"]);
    assert_eq!(
        m.publish_config,
        vec![("registry".to_string(), "https://example.invalid".to_string())]
    );
    assert_eq!(m.bugs, vec![("url".to_string(), "https://example.invalid/bugs".to_string())]);
    assert_eq!(m.files, vec!["lib.dll"]);
    assert_eq!(m.main, "lib.dll");
}
