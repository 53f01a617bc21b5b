use bob_core::{
    normalize_semver, parse_version_type, CoreError, InputVersion, TokenResolution, VersionType,
};

fn resolved(tag: &str, version_type: VersionType) -> Result<TokenResolution, CoreError> {
    Ok(TokenResolution::Resolved(InputVersion { tag_name: tag.to_string(), version_type }))
}

fn invalid(token: &str) -> Result<TokenResolution, CoreError> {
    Err(CoreError::InvalidVersionToken(token.to_string()))
}

#[test]
fn semver_without_v_gets_one() {
    assert_eq!(parse_version_type("1.2.3"), resolved("v1.2.3", VersionType::Standard));
}

#[test]
fn semver_with_v_keeps_single_v() {
    assert_eq!(parse_version_type("v1.2.3"), resolved("v1.2.3", VersionType::Standard));
}

#[test]
fn semver_with_long_numbers() {
    assert_eq!(parse_version_type("10.20.300"), resolved("v10.20.300", VersionType::Standard));
}

#[test]
fn double_v_is_not_semver() {
    assert_eq!(parse_version_type("vv1.2.3"), invalid("vv1.2.3"));
}

#[test]
fn short_hash_is_hash() {
    assert_eq!(parse_version_type("a1b2c3"), resolved("a1b2c3", VersionType::Hash));
}

#[test]
fn full_hash_is_hash() {
    let h = "0123456789abcdef0123456789abcdef01234567";
    assert_eq!(h.len(), 40);
    assert_eq!(parse_version_type(h), resolved(h, VersionType::Hash));
}

#[test]
fn five_hex_digits_is_hash() {
    assert_eq!(parse_version_type("12345"), resolved("12345", VersionType::Hash));
}

#[test]
fn four_hex_digits_is_invalid() {
    assert_eq!(parse_version_type("abcd"), invalid("abcd"));
}

#[test]
fn forty_one_hex_digits_is_invalid() {
    let h = "0123456789abcdef0123456789abcdef012345678";
    assert_eq!(h.len(), 41);
    assert_eq!(parse_version_type(h), invalid(h));
}

#[test]
fn uppercase_hex_is_invalid() {
    assert_eq!(parse_version_type("ABCDEF"), invalid("ABCDEF"));
}

#[test]
fn hash_within_a_token_is_invalid() {
    assert_eq!(parse_version_type("build-abcdef1"), invalid("build-abcdef1"));
    assert_eq!(parse_version_type("xyz abcde"), invalid("xyz abcde"));
    assert_eq!(parse_version_type("abcde "), invalid("abcde "));
}

#[test]
fn abc_is_invalid() {
    assert_eq!(parse_version_type("abc"), invalid("abc"));
}

#[test]
fn two_part_version_is_invalid() {
    assert_eq!(parse_version_type("1.2"), invalid("1.2"));
}

#[test]
fn empty_token_is_invalid() {
    assert_eq!(parse_version_type(""), invalid(""));
}

#[test]
fn four_part_version_is_invalid() {
    assert_eq!(parse_version_type("1.2.3.4"), invalid("1.2.3.4"));
}

#[test]
fn nightly_is_standard_alias() {
    assert_eq!(parse_version_type("nightly"), resolved("nightly", VersionType::Standard));
}

#[test]
fn stable_needs_upstream() {
    assert_eq!(parse_version_type("stable"), Ok(TokenResolution::LatestStable));
}

#[test]
fn normalize_adds_v_once() {
    assert_eq!(normalize_semver("0.9.1"), "v0.9.1");
    assert_eq!(normalize_semver("v0.9.1"), "v0.9.1");
}
