use counter::semver::{parse_semver, semver_lt, version_lt, SemVer};

#[test]
fn parse_accepts_three_numeric_components() {
    assert_eq!(
        parse_semver("1.2.3"),
        Some(SemVer { major: 1, minor: 2, patch: 3 })
    );
    assert_eq!(
        parse_semver("0.1.0"),
        Some(SemVer { major: 0, minor: 1, patch: 0 })
    );
    assert_eq!(
        parse_semver("10.20.30"),
        Some(SemVer { major: 10, minor: 20, patch: 30 })
    );
    assert_eq!(
        parse_semver("18446744073709551615.0.0"),
        Some(SemVer { major: u64::MAX, minor: 0, patch: 0 })
    );
}

#[test]
fn parse_rejects_other_shapes() {
    assert_eq!(parse_semver(""), None);
    assert_eq!(parse_semver("1"), None);
    assert_eq!(parse_semver("1.2"), None);
    assert_eq!(parse_semver("1.2.3.4"), None);
    assert_eq!(parse_semver("1..3"), None);
    assert_eq!(parse_semver(".2.3"), None);
    assert_eq!(parse_semver("1.2."), None);
    assert_eq!(parse_semver("a.b.c"), None);
    assert_eq!(parse_semver("1.2.3-rc1"), None);
    assert_eq!(parse_semver("18446744073709551616.0.0"), None);
}

#[test]
fn component_order_is_major_then_minor_then_patch() {
    let v = |a: u64, b: u64, c: u64| SemVer { major: a, minor: b, patch: c };
    assert!(semver_lt(&v(0, 0, 9), &v(0, 1, 0)));
    assert!(semver_lt(&v(1, 9, 9), &v(2, 0, 0)));
    assert!(semver_lt(&v(1, 2, 3), &v(1, 2, 4)));
    assert!(!semver_lt(&v(1, 2, 3), &v(1, 2, 3)));
    assert!(!semver_lt(&v(2, 0, 0), &v(1, 9, 9)));
}

#[test]
fn string_order_is_semantic_not_lexicographic() {
    assert!(version_lt("0.0.9", "0.1.0"));
    assert!(!version_lt("0.1.0", "0.1.0"));
    assert!(!version_lt("0.1.0", "0.0.9"));
    // Lexicographically "10.0.0" precedes "9.0.0"; semantically it follows.
    assert!(version_lt("9.0.0", "10.0.0"));
    assert!(!version_lt("10.0.0", "9.0.0"));
    // Nothing is older or newer than an unparseable tag.
    assert!(!version_lt("abc", "0.1.0"));
    assert!(!version_lt("0.1.0", "abc"));
}
