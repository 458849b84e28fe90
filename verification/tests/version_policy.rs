//! The `/version` policy and its SemVer subset.

use nir_rs::io::version::{
    enforce_version_policy, is_valid_suffix, parse_component, parse_nir_version, ParsedVersion,
    VersionPolicy,
};
use nir_rs::NirError;

#[test]
fn compatible_major_canonicalizes_the_allow_list() {
    let policy = VersionPolicy::compatible_major(&[1, 0, 1, 0]);
    assert_eq!(policy, VersionPolicy::CompatibleMajor { majors: vec![0, 1] });
    assert_eq!(policy.describe(), "compatible-major majors=[0, 1]");
}

#[test]
fn parse_accepts_core_and_suffixes() {
    assert_eq!(
        parse_nir_version("0.1.1"),
        Some(ParsedVersion { major: 0, minor: 1, patch: 1 })
    );
    assert_eq!(
        parse_nir_version("1.0.8"),
        Some(ParsedVersion { major: 1, minor: 0, patch: 8 })
    );
    let pre = parse_nir_version("1.0.0-rc.1").unwrap();
    assert_eq!(pre.major, 1);
    let build = parse_nir_version("1.0.0+exp.sha.5114f85").unwrap();
    assert_eq!(build.major, 1);
    let both = parse_nir_version("1.2.3-alpha.1+build.9").unwrap();
    assert_eq!(both, ParsedVersion { major: 1, minor: 2, patch: 3 });
    assert!(parse_nir_version("0.2.0-beta-1").is_some());
}

#[test]
fn parse_rejects_malformed_strings() {
    for raw in [
        "",
        "latest",
        "1",
        "1.0",
        "v1.0.0",
        "01.0.0",
        "1.0.0.0",
        "1.0.0-",
        "1.0.0+",
        "1.0.0-+build",
        "1.0.0-rc.",
        "-1.0.0",
    ] {
        assert!(parse_nir_version(raw).is_none(), "{raw:?} should be malformed");
    }
}

#[test]
fn permissive_never_rejects() {
    let policy = VersionPolicy::Permissive;
    enforce_version_policy(None, &policy).unwrap();
    enforce_version_policy(Some("not-a-semver"), &policy).unwrap();
}

#[test]
fn require_present_rejects_only_absence() {
    let policy = VersionPolicy::RequirePresent;
    match enforce_version_policy(None, &policy).unwrap_err() {
        NirError::IncompatibleVersion { observed, policy } => {
            assert_eq!(observed, None);
            assert_eq!(policy, "require-present");
        }
        other => panic!("unexpected {other:?}"),
    }
    enforce_version_policy(Some("not-a-semver"), &policy).unwrap();
}

#[test]
fn compatible_major_covers_missing_malformed_and_majors() {
    let policy = VersionPolicy::compatible_major(&[0, 1]);
    assert!(enforce_version_policy(Some("0.1.1"), &policy).is_ok());
    assert!(enforce_version_policy(Some("0.2.0"), &policy).is_ok());
    assert!(enforce_version_policy(Some("1.0.8"), &policy).is_ok());
    assert!(enforce_version_policy(Some("1.0.0-rc.1"), &policy).is_ok());
    assert!(enforce_version_policy(Some("1.0.0+build"), &policy).is_ok());

    for (raw, expect_observed) in [
        (None, None),
        (Some("2.0.0"), Some("2.0.0")),
        (Some("not-a-semver"), Some("not-a-semver")),
        (Some("v1.0.0"), Some("v1.0.0")),
    ] {
        match enforce_version_policy(raw, &policy).unwrap_err() {
            NirError::IncompatibleVersion { observed, policy } => {
                assert_eq!(observed.as_deref(), expect_observed);
                assert_eq!(policy, "compatible-major majors=[0, 1]");
            }
            other => panic!("unexpected {other:?} for {raw:?}"),
        }
    }
}

#[test]
fn empty_major_list_is_fail_closed() {
    let policy = VersionPolicy::compatible_major(&[]);
    match enforce_version_policy(Some("1.0.8"), &policy).unwrap_err() {
        NirError::IncompatibleVersion { observed, policy } => {
            assert_eq!(observed.as_deref(), Some("1.0.8"));
            assert_eq!(policy, "compatible-major majors=[]");
        }
        other => panic!("unexpected {other:?}"),
    }
}

#[test]
fn policy_descriptions() {
    assert_eq!(VersionPolicy::Permissive.describe(), "permissive");
    assert_eq!(VersionPolicy::RequirePresent.describe(), "require-present");
    assert_eq!(
        VersionPolicy::compatible_major(&[7, 3, 7, 12]).describe(),
        "compatible-major majors=[3, 7, 12]"
    );
    assert_eq!(VersionPolicy::default(), VersionPolicy::Permissive);
}

#[test]
fn components_parse_exactly() {
    assert_eq!(parse_component("0"), Some(0));
    assert_eq!(parse_component("42"), Some(42));
    assert_eq!(parse_component("18446744073709551615"), Some(u64::MAX));
    assert_eq!(parse_component("18446744073709551616"), None);
    assert_eq!(parse_component("007"), None);
    assert_eq!(parse_component(""), None);
    assert_eq!(parse_component("1a"), None);
}

#[test]
fn suffix_identifiers() {
    assert!(is_valid_suffix("rc.1"));
    assert!(is_valid_suffix("beta-1.x-y"));
    assert!(!is_valid_suffix(""));
    assert!(!is_valid_suffix("rc..1"));
    assert!(!is_valid_suffix(".rc"));
    assert!(!is_valid_suffix("rc."));
    assert!(!is_valid_suffix("r_c"));
}

#[test]
fn huge_major_is_parsed_and_compared() {
    let v = parse_nir_version("18446744073709551615.0.0").unwrap();
    assert_eq!(v.major, u64::MAX);
    let policy = VersionPolicy::compatible_major(&[u64::MAX]);
    assert!(enforce_version_policy(Some("18446744073709551615.2.3-x"), &policy).is_ok());
}
