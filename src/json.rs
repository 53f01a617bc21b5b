use vstd::prelude::*;
use crate::text::text_of;

verus! {

/// The string member `key` of the JSON object that `text` holds, as
/// serde_json reads it; `None` where `text` is no JSON object or the member
/// is missing or no string.
pub uninterp spec fn json_text_member(text: Seq<char>, key: Seq<char>) -> Option<Seq<char>>;

/// For each element of the JSON array that `text` holds, as serde_json reads
/// it, its string member `sha` and the string at `commit.committer.date`;
/// `None` where `text` is no JSON array.
pub uninterp spec fn json_commits_of(text: Seq<char>) -> Option<Seq<(Option<Seq<char>>, Option<Seq<char>>)>>;

pub open spec fn pair_texts(v: Seq<(Option<String>, Option<String>)>) -> Seq<(Option<Seq<char>>, Option<Seq<char>>)> {
    v.map_values(|p: (Option<String>, Option<String>)| (text_of(p.0), text_of(p.1)))
}

/// Relies on serde_json::from_str, Value::get and Value::as_str: the string
/// member `key` of the parsed document. Empty text is no JSON document.
#[verifier::external_body]
pub(crate) fn json_string_member(text: &str, key: &str) -> (r: Option<String>)
    ensures
        text_of(r) == json_text_member(text@, key@),
        text@.len() == 0 ==> r is None,
{
    let doc = serde_json::from_str::<serde_json::Value>(text).ok()?;
    doc.get(key).and_then(|m| m.as_str()).map(|m| m.to_string())
}

/// Relies on serde_json::from_str, Value::as_array, Value::get,
/// Value::pointer and Value::as_str: per element of the parsed array, its
/// `sha` and its `commit.committer.date`, in order. Empty text is no JSON
/// document.
#[verifier::external_body]
pub(crate) fn json_commit_fields(text: &str) -> (r: Option<Vec<(Option<String>, Option<String>)>>)
    ensures
        match r {
            Some(v) => json_commits_of(text@) == Some(pair_texts(v@)),
            None => json_commits_of(text@) is None,
        },
        text@.len() == 0 ==> r is None,
{
    let doc = serde_json::from_str::<serde_json::Value>(text).ok()?;
    let items = doc.as_array()?;
    Some(items.iter().map(|c| (
        c.get("sha").and_then(|s| s.as_str()).map(|s| s.to_string()),
        c.pointer("/commit/committer/date").and_then(|d| d.as_str()).map(|d| d.to_string()),
    )).collect())
}

} // verus!
