use plugin_packager::assemble::PackagingError;
use plugin_packager::orchestrate::{
    collect_results, dedup_platform_list, plan_units, resolve_platforms, PackageCommand, UnitKey,
};
use plugin_packager::platform::{parse_node_platform, PlatformError};

fn details(tokens: &[&str]) -> Vec<plugin_packager::platform::PlatformDetail> {
    tokens.iter().map(|t| parse_node_platform(t).unwrap()).collect()
}

fn names(ns: &[&str]) -> Vec<String> {
    ns.iter().map(|s| s.to_string()).collect()
}

#[test]
fn resolving_good_tokens_keeps_their_order() {
    let v = resolve_platforms(&names(&["darwin-x64", "linux-x64-gnu"])).unwrap();
    assert_eq!(v.len(), 2);
    assert_eq!(v[0].platform_arch_abi, "darwin-x64");
    assert_eq!(v[1].platform_arch_abi, "linux-x64-gnu");
}

#[test]
fn first_bad_token_aborts_resolution() {
    let r = resolve_platforms(&names(&["darwin-x64", "nope", "linux-x64-gnu"]));
    assert_eq!(r, Err(PlatformError::InvalidPlatformFormat));
    let r = resolve_platforms(&names(&["bad-cpu0-x", "nope"]));
    assert!(matches!(r, Err(PlatformError::UnknownPlatformComponent { .. })));
}

#[test]
fn platform_set_defaults_to_the_full_catalog() {
    let cmd = PackageCommand { crates: vec![], platforms: None };
    let v = cmd.resolve_platform_set().unwrap();
    assert_eq!(v.len(), 12);
    let cmd = PackageCommand { crates: vec![], platforms: Some(names(&["darwin-x64"])) };
    let v = cmd.resolve_platform_set().unwrap();
    assert_eq!(v.len(), 1);
}

#[test]
fn unit_matrix_is_the_deduplicated_cross_product() {
    let units = plan_units(
        &names(&["a", "b", "a"]),
        &details(&["darwin-x64", "linux-x64-gnu", "darwin-x64"]),
    );
    let got: Vec<(String, String)> = units
        .iter()
        .map(|(c, p)| (c.clone(), p.platform_arch_abi.clone()))
        .collect();
    assert_eq!(
        got,
        vec![
            ("a".to_string(), "darwin-x64".to_string()),
            ("b".to_string(), "darwin-x64".to_string()),
            ("a".to_string(), "linux-x64-gnu".to_string()),
            ("b".to_string(), "linux-x64-gnu".to_string()),
        ]
    );
}

#[test]
fn dedup_keeps_first_occurrences() {
    let d = dedup_platform_list(&details(&["darwin-x64", "darwin-x64", "freebsd-x64"]));
    let got: Vec<String> = d.iter().map(|p| p.platform_arch_abi.clone()).collect();
    assert_eq!(got, vec!["darwin-x64", "freebsd-x64"]);
}

fn key(c: &str, p: &str) -> UnitKey {
    UnitKey { crate_name: c.to_string(), platform: p.to_string() }
}

#[test]
fn one_missing_binary_among_six_units_is_reported_exactly_once() {
    let crates = ["a", "b"];
    let platforms = ["darwin-x64", "linux-x64-gnu", "win32-x64-msvc"];
    let mut results: Vec<(UnitKey, Result<String, PackagingError>)> = Vec::new();
    for p in platforms.iter() {
        for c in crates.iter() {
            if *c == "b" && *p == "linux-x64-gnu" {
                results.push((
                    key(c, p),
                    Err(PackagingError::BuiltBinaryMissing {
                        path: "/out/build/b.linux-x64-gnu.so".to_string(),
                    }),
                ));
            } else {
                results.push((key(c, p), Ok(format!("/out/pkgs/{}-{}", c, p))));
            }
        }
    }
    match collect_results(results) {
        Err(agg) => {
            assert_eq!(agg.failures.len(), 1);
            assert_eq!(agg.failures[0].0, key("b", "linux-x64-gnu"));
            assert!(matches!(
                agg.failures[0].1,
                PackagingError::BuiltBinaryMissing { .. }
            ));
        },
        Ok(_) => panic!("a failing unit must fail the whole run"),
    }
}

#[test]
fn a_fully_successful_run_lists_every_package_directory() {
    let results = vec![
        (key("a", "darwin-x64"), Ok("/out/pkgs/a-darwin-x64".to_string())),
        (key("b", "darwin-x64"), Ok("/out/pkgs/b-darwin-x64".to_string())),
    ];
    let dirs = collect_results(results).unwrap();
    assert_eq!(dirs, vec!["/out/pkgs/a-darwin-x64", "/out/pkgs/b-darwin-x64"]);
}

#[test]
fn every_failure_is_reported_not_just_the_first() {
    let results = vec![
        (
            key("a", "darwin-x64"),
            Err::<String, _>(PackagingError::BuiltBinaryMissing { path: "p1".to_string() }),
        ),
        (key("b", "darwin-x64"), Ok("/out/pkgs/b-darwin-x64".to_string())),
        (
            key("c", "darwin-x64"),
            Err(PackagingError::ManifestWriteFailed {
                path: "p2".to_string(),
                cause: "io".to_string(),
            }),
        ),
    ];
    let agg = collect_results(results).err().unwrap();
    assert_eq!(agg.failures.len(), 2);
    assert_eq!(agg.failures[0].0, key("a", "darwin-x64"));
    assert_eq!(agg.failures[1].0, key("c", "darwin-x64"));
}
