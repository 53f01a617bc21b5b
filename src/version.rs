use vstd::prelude::*;
use vstd::string::*;
use crate::error::CoreError;
use crate::patterns::{
    has_single_leading_v, hash_pattern_matches, is_hex_token, is_semver_token,
    lemma_semver_tag_single_v, semver_pattern_matches,
};
use crate::text::str_equals;

verus! {

/// How a resolved tag names a build.
#[derive(Clone, Copy, Debug, PartialEq, Eq, Structural)]
pub enum VersionType {
    Standard,
    Hash,
}

/// A version token resolved to its canonical tag.
#[derive(Clone, Debug, PartialEq, Eq)]
pub struct InputVersion {
    pub tag_name: String,
    pub version_type: VersionType,
}

/// What a version token resolves to without asking the release API, or that
/// the API must be asked for the latest stable release.
#[derive(Clone, Debug, PartialEq, Eq)]
pub enum TokenResolution {
    Resolved(InputVersion),
    LatestStable,
}

/// A semantic version token with exactly one leading `v`.
pub open spec fn normalized_tag(s: Seq<char>) -> Seq<char> {
    if s.len() > 0 && s[0] == 'v' {
        s
    } else {
        seq!['v'] + s
    }
}

/// The tag that a semantic version token resolves to.
pub fn normalize_semver(version: &str) -> (r: String)
    ensures
        r@ == normalized_tag(version@),
{
    if version.unicode_len() > 0 && version.get_char(0) == 'v' {
        String::from_str(version)
    } else {
        let mut tag = String::from_str("v");
        tag.append(version);
        proof {
            reveal_strlit("v");
        }
        tag
    }
}

/// Resolves a version token. `nightly` stands for itself; `stable` has to be
/// looked up upstream; a semantic version gets its leading `v`; a whole
/// commit hash is taken as it is; anything else is refused.
pub fn parse_version_type(version: &str) -> (r: Result<TokenResolution, CoreError>)
    ensures
        version@ == "nightly"@ ==> (r matches Ok(TokenResolution::Resolved(v)) && v.tag_name@
            == "nightly"@ && v.version_type == VersionType::Standard),
        version@ == "stable"@ ==> r == Ok::<TokenResolution, CoreError>(TokenResolution::LatestStable),
        version@ != "nightly"@ && version@ != "stable"@ && is_semver_token(version@) ==> (r matches Ok(
            TokenResolution::Resolved(v),
        ) && v.tag_name@ == normalized_tag(version@) && has_single_leading_v(v.tag_name@)
            && v.version_type == VersionType::Standard),
        version@ != "nightly"@ && version@ != "stable"@ && !is_semver_token(version@) && is_hex_token(
            version@,
        ) ==> (r matches Ok(TokenResolution::Resolved(v)) && v.tag_name@ == version@ && v.version_type
            == VersionType::Hash),
        version@ != "nightly"@ && version@ != "stable"@ && !is_semver_token(version@) && !is_hex_token(
            version@,
        ) ==> (r matches Err(CoreError::InvalidVersionToken(t)) && t@ == version@),
{
    proof {
        reveal_strlit("nightly");
        reveal_strlit("stable");
        assert("nightly"@[0] != "stable"@[0]);
        if is_semver_token(version@) {
            lemma_semver_tag_single_v(version@);
        }
    }
    if str_equals(version, "nightly") {
        return Ok(
            TokenResolution::Resolved(
                InputVersion { tag_name: String::from_str(version), version_type: VersionType::Standard },
            ),
        );
    }
    if str_equals(version, "stable") {
        return Ok(TokenResolution::LatestStable);
    }
    let semver = match semver_pattern_matches(version) {
        Ok(b) => b,
        Err(_) => return Err(CoreError::PatternUnavailable),
    };
    if semver {
        return Ok(
            TokenResolution::Resolved(
                InputVersion { tag_name: normalize_semver(version), version_type: VersionType::Standard },
            ),
        );
    }
    let hash = match hash_pattern_matches(version) {
        Ok(b) => b,
        Err(_) => return Err(CoreError::PatternUnavailable),
    };
    if hash {
        Ok(
            TokenResolution::Resolved(
                InputVersion { tag_name: String::from_str(version), version_type: VersionType::Hash },
            ),
        )
    } else {
        Err(CoreError::InvalidVersionToken(String::from_str(version)))
    }
}

} // verus!
