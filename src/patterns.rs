use vstd::prelude::*;

verus! {

#[verifier::external_type_specification]
#[verifier::external_body]
pub struct ExRegexError(regex::Error);

pub open spec fn is_digit(c: char) -> bool {
    '0' <= c && c <= '9'
}

pub open spec fn is_lower_hex(c: char) -> bool {
    is_digit(c) || ('a' <= c && c <= 'f')
}

/// One or more decimal digits.
pub open spec fn is_digit_run(s: Seq<char>) -> bool {
    s.len() > 0 && forall|i: int| 0 <= i < s.len() ==> is_digit(s[i])
}

/// `<digits>.<digits>.<digits>` with nothing around it.
pub open spec fn is_numeric_triple(s: Seq<char>) -> bool {
    exists|a: int, b: int|
        0 <= a < b < s.len() && s[a] == '.' && s[b] == '.' && is_digit_run(s.subrange(0, a))
            && is_digit_run(s.subrange(a + 1, b)) && is_digit_run(s.subrange(b + 1, s.len() as int))
}

/// The whole token is a semantic version, with or without a leading `v`:
/// the language of `^v?[0-9]+\.[0-9]+\.[0-9]+$`.
pub open spec fn is_semver_token(s: Seq<char>) -> bool {
    is_numeric_triple(s) || (s.len() > 0 && s[0] == 'v' && is_numeric_triple(s.drop_first()))
}

/// The whole token is 5 to 40 lowercase hexadecimal digits.
pub open spec fn is_hex_token(s: Seq<char>) -> bool {
    5 <= s.len() <= 40 && forall|i: int| 0 <= i < s.len() ==> is_lower_hex(s[i])
}

/// `s[i..j]` reads `v<digits>.<digits>.<digits>`, and no digit follows it:
/// the match that the greedy pattern `v[0-9]+\.[0-9]+\.[0-9]+` makes from `i`.
pub open spec fn version_match_at(s: Seq<char>, i: int, j: int) -> bool {
    0 <= i < j && j <= s.len() && s[i] == 'v' && is_numeric_triple(s.subrange(i + 1, j)) && (j == s.len()
        || !is_digit(s[j]))
}

/// The leftmost `v<digits>.<digits>.<digits>` in `s`, if there is one.
pub open spec fn first_version_match(s: Seq<char>) -> Option<Seq<char>> {
    if exists|i: int, j: int| version_match_at(s, i, j) {
        let (i, j) = choose|i: int, j: int|
            version_match_at(s, i, j) && forall|k: int, l: int| 0 <= k < i ==> !version_match_at(s, k, l);
        Some(s.subrange(i, j))
    } else {
        None
    }
}

/// Exactly one `v` leads the tag.
pub open spec fn has_single_leading_v(t: Seq<char>) -> bool {
    t.len() > 1 && t[0] == 'v' && t[1] != 'v'
}

/// A numeric triple starts with a digit.
proof fn lemma_triple_starts_with_digit(s: Seq<char>)
    requires
        is_numeric_triple(s),
    ensures
        s.len() > 0 && is_digit(s[0]),
{
    let (a, b) = choose|a: int, b: int|
        0 <= a < b < s.len() && s[a] == '.' && s[b] == '.' && is_digit_run(s.subrange(0, a))
            && is_digit_run(s.subrange(a + 1, b)) && is_digit_run(s.subrange(b + 1, s.len() as int));
    assert(s.subrange(0, a)[0] == s[0]);
}

/// A semantic version token, once given its leading `v`, has exactly one.
pub proof fn lemma_semver_tag_single_v(s: Seq<char>)
    requires
        is_semver_token(s),
    ensures
        has_single_leading_v(if s.len() > 0 && s[0] == 'v' { s } else { seq!['v'] + s }),
{
    if s.len() > 0 && s[0] == 'v' {
        if is_numeric_triple(s) {
            lemma_triple_starts_with_digit(s);
        } else {
            lemma_triple_starts_with_digit(s.drop_first());
            assert(s[1] == s.drop_first()[0]);
        }
    } else {
        lemma_triple_starts_with_digit(s);
        assert((seq!['v'] + s)[1] == s[0]);
    }
}

/// Relies on regex::Regex::new and Regex::is_match: the pattern
/// `^v?[0-9]+\.[0-9]+\.[0-9]+$` is valid and matches exactly the semantic
/// version tokens.
#[verifier::external_body]
pub(crate) fn semver_pattern_matches(s: &str) -> (r: Result<bool, regex::Error>)
    ensures
        r is Ok,
        r matches Ok(b) ==> b == is_semver_token(s@),
{
    regex::Regex::new(r"^v?[0-9]+\.[0-9]+\.[0-9]+$").map(|re| re.is_match(s))
}

/// Relies on regex::Regex::new and Regex::is_match: the pattern
/// `^[0-9a-f]{5,40}$` is valid and matches exactly the commit-hash tokens.
#[verifier::external_body]
pub(crate) fn hash_pattern_matches(s: &str) -> (r: Result<bool, regex::Error>)
    ensures
        r is Ok,
        r matches Ok(b) ==> b == is_hex_token(s@),
{
    regex::Regex::new(r"^[0-9a-f]{5,40}$").map(|re| re.is_match(s))
}

/// Relies on regex::Regex::new and Regex::find: the pattern
/// `v[0-9]+\.[0-9]+\.[0-9]+` is valid; `find` gives its leftmost-first
/// match, which for this greedy pattern runs to the end of the last digits.
#[verifier::external_body]
pub(crate) fn find_version(s: &str) -> (r: Result<Option<String>, regex::Error>)
    ensures
        r is Ok,
        r matches Ok(m) ==> match m {
            Some(t) => first_version_match(s@) == Some(t@),
            None => first_version_match(s@) is None,
        },
{
    regex::Regex::new(r"v[0-9]+\.[0-9]+\.[0-9]+").map(|re| re.find(s).map(|m| m.as_str().to_string()))
}

} // verus!
