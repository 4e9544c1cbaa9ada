use plugin_packager::platform::{
    all_node_platforms, parse_node_platform, possible_strings, NodeArch, NodePlatform,
    PlatformError,
};

#[test]
fn catalog_tokens_round_trip() {
    for token in possible_strings() {
        let first = parse_node_platform(token).unwrap();
        let again = parse_node_platform(first.to_token_string().as_str()).unwrap();
        assert_eq!(first, again);
        assert_eq!(first.platform_arch_abi, token);
    }
}

#[test]
fn catalog_matches_parsed_details() {
    let details = all_node_platforms();
    let tokens = possible_strings();
    assert_eq!(details.len(), 12);
    assert_eq!(tokens.len(), 12);
    for (detail, token) in details.iter().zip(tokens.iter()) {
        let parsed = parse_node_platform(token).unwrap();
        assert_eq!(detail, &parsed);
        assert_eq!(detail.platform, parsed.platform);
        assert_eq!(detail.arch, parsed.arch);
        assert_eq!(detail.abi, parsed.abi);
    }
}

#[test]
fn two_segment_token_has_no_abi() {
    let p = parse_node_platform("darwin-x64").unwrap();
    assert_eq!(p.platform, NodePlatform::Darwin);
    assert_eq!(p.arch, NodeArch::X64);
    assert_eq!(p.abi, None);
    assert_eq!(p.platform_arch_abi, "darwin-x64");
}

#[test]
fn three_segment_token_keeps_abi() {
    let p = parse_node_platform("linux-arm-gnueabihf").unwrap();
    assert_eq!(p.platform, NodePlatform::Linux);
    assert_eq!(p.arch, NodeArch::Arm);
    assert_eq!(p.abi.as_deref(), Some("gnueabihf"));
}

#[test]
fn one_segment_is_invalid_format() {
    assert_eq!(
        parse_node_platform("linux"),
        Err(PlatformError::InvalidPlatformFormat)
    );
    assert_eq!(parse_node_platform(""), Err(PlatformError::InvalidPlatformFormat));
}

#[test]
fn four_segments_are_invalid_format() {
    assert_eq!(
        parse_node_platform("linux-x64-gnu-extra"),
        Err(PlatformError::InvalidPlatformFormat)
    );
    assert_eq!(
        parse_node_platform("a-b-c-d-e"),
        Err(PlatformError::InvalidPlatformFormat)
    );
}

#[test]
fn unknown_os_names_token_and_accepted_list() {
    match parse_node_platform("plan9-x64") {
        Err(PlatformError::UnknownPlatformComponent { token, accepted }) => {
            assert_eq!(token, "plan9");
            assert_eq!(accepted, vec!["win32", "darwin", "linux", "android", "freebsd"]);
        },
        other => panic!("expected unknown component, got {:?}", other),
    }
}

#[test]
fn unknown_cpu_names_token_and_accepted_list() {
    match parse_node_platform("linux-sparc64-gnu") {
        Err(PlatformError::UnknownPlatformComponent { token, accepted }) => {
            assert_eq!(token, "sparc64");
            assert_eq!(accepted, vec!["x64", "ia32", "arm64", "arm"]);
        },
        other => panic!("expected unknown component, got {:?}", other),
    }
}

#[test]
fn os_check_comes_before_cpu_check() {
    match parse_node_platform("plan9-sparc64") {
        Err(PlatformError::UnknownPlatformComponent { token, .. }) => {
            assert_eq!(token, "plan9");
        },
        other => panic!("expected unknown component, got {:?}", other),
    }
}

#[test]
fn cdylib_extensions_follow_os_family() {
    assert_eq!(NodePlatform::Win32.cdylib_ext(), ".dll");
    assert_eq!(NodePlatform::Darwin.cdylib_ext(), ".dylib");
    assert_eq!(NodePlatform::Linux.cdylib_ext(), ".so");
    assert_eq!(NodePlatform::Android.cdylib_ext(), ".so");
    assert_eq!(NodePlatform::Freebsd.cdylib_ext(), ".so");
}

#[test]
fn equality_goes_by_canonical_token() {
    let a = parse_node_platform("linux-x64-gnu").unwrap();
    let b = parse_node_platform("linux-x64-gnu").unwrap();
    let c = parse_node_platform("linux-x64-musl").unwrap();
    assert_eq!(a, b);
    assert!(a != c);
}
