use plugin_packager::build_cmd::{crate_names_of, stage_plan};
use plugin_packager::cli::InitCommand;
use plugin_packager::dedup::dedup_names;
use plugin_packager::extract::BuiltPlugin;
use plugin_packager::platform::parse_node_platform;
use plugin_packager::publish::{
    crate_enabled, is_pkg_filename, optional_dep_additions, pkg_crates, pkg_platforms_for,
    platform_pkg_filename,
};
use plugin_packager::toolchain::parse_host_triple;

fn names(ns: &[&str]) -> Vec<String> {
    ns.iter().map(|s| s.to_string()).collect()
}

#[test]
fn staged_package_names_are_recognized() {
    assert!(is_pkg_filename("foo.linux-x64-gnu.swc-pkg.tgz"));
    assert!(!is_pkg_filename("foo.linux-x64-gnu.tar.gz"));
    assert!(!is_pkg_filename("short"));
    assert!(!is_pkg_filename("README.md"));
}

#[test]
fn platforms_are_grouped_per_crate() {
    let listing = names(&[
        "foo.linux-x64-gnu.swc-pkg.tgz",
        "bar.darwin-x64.swc-pkg.tgz",
        "foo.win32-x64-msvc.swc-pkg.tgz",
        "notes.txt",
    ]);
    assert_eq!(
        pkg_platforms_for(&listing, "foo"),
        vec!["linux-x64-gnu", "win32-x64-msvc"]
    );
    assert_eq!(pkg_platforms_for(&listing, "bar"), vec!["darwin-x64"]);
    assert_eq!(pkg_platforms_for(&listing, "baz"), Vec::<String>::new());
    assert_eq!(pkg_crates(&listing), vec!["foo", "bar"]);
}

#[test]
fn optional_dependency_entries_skip_present_keys() {
    let additions = optional_dep_additions(
        "foo",
        "1.0.0",
        &names(&["linux-x64-gnu", "darwin-x64", "linux-x64-gnu"]),
        &names(&["foo-darwin-x64"]),
    );
    assert_eq!(
        additions,
        vec![("foo-linux-x64-gnu".to_string(), "1.0.0".to_string())]
    );
}

#[test]
fn tarball_names_follow_the_staging_convention() {
    assert_eq!(
        platform_pkg_filename("foo", "linux-x64-gnu"),
        "foo.linux-x64-gnu.swc-pkg.tgz"
    );
}

#[test]
fn empty_crate_filter_enables_everything() {
    assert!(crate_enabled(&names(&[]), "anything"));
    assert!(crate_enabled(&names(&["a", "b"]), "a"));
    assert!(!crate_enabled(&names(&["a", "b"]), "c"));
}

#[test]
fn host_triple_is_read_from_the_self_report() {
    let out = "rustc 1.99.0\nbinary: rustc\nhost: x86_64-unknown-linux-gnu\nrelease: 1.99.0\n";
    assert_eq!(parse_host_triple(out).as_deref(), Some("x86_64-unknown-linux-gnu"));
}

#[test]
fn missing_host_line_yields_nothing() {
    assert_eq!(parse_host_triple("rustc 1.99.0\nrelease: 1.99.0\n"), None);
    assert_eq!(parse_host_triple(""), None);
    // The field prefix must start the line.
    assert_eq!(parse_host_triple("the host: is elsewhere\n"), None);
}

#[test]
fn first_host_line_wins() {
    let out = "host: first\nhost: second\n";
    assert_eq!(parse_host_triple(out).as_deref(), Some("first"));
}

#[test]
fn dedup_keeps_first_occurrences_in_order() {
    assert_eq!(dedup_names(&names(&["a", "b", "a", "c", "b"])), vec!["a", "b", "c"]);
    assert_eq!(dedup_names(&names(&[])), Vec::<String>::new());
}

fn lib(name: &str, path: &str) -> BuiltPlugin {
    BuiltPlugin {
        crate_name: name.to_string(),
        target: "x86_64-unknown-linux-gnu".to_string(),
        cdylib_path: path.to_string(),
    }
}

#[test]
fn staging_names_carry_crate_platform_and_extension() {
    let platform = parse_node_platform("linux-x64-gnu").unwrap();
    let libs = vec![lib("foo", "/t/debug/libfoo.so"), lib("bar", "/t/debug/bar.dll")];
    let plan = stage_plan(&libs, &platform);
    assert_eq!(
        plan,
        vec![
            ("/t/debug/libfoo.so".to_string(), "foo.linux-x64-gnu.so".to_string()),
            ("/t/debug/bar.dll".to_string(), "bar.linux-x64-gnu.dll".to_string()),
        ]
    );
}

#[test]
fn built_crate_names_are_deduplicated() {
    let libs = vec![
        lib("foo", "/a.so"),
        lib("bar", "/b.so"),
        lib("foo", "/c.so"),
    ];
    assert_eq!(crate_names_of(&libs), vec!["foo", "bar"]);
}

#[test]
fn fresh_plugin_projects_get_the_plugin_dependencies() {
    let cmd = InitCommand {};
    assert_eq!(
        cmd.dependencies_to_add(),
        vec!["abi_stable", "swc_atoms", "swc_common", "swc_plugin"]
    );
}
