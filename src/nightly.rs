use vstd::prelude::*;
use vstd::string::*;
use crate::error::CoreError;
use crate::json::{json_commit_fields, json_commits_of, json_string_member, json_text_member, pair_texts};
use crate::text::text_of;
use crate::version::{InputVersion, VersionType};

verus! {

/// Release metadata as the release API gives it, and as the installer
/// records it beside each installed build.
#[derive(Clone, Debug, PartialEq, Eq)]
pub struct UpstreamVersion {
    pub tag_name: String,
    pub target_commitish: Option<String>,
    pub published_at: String,
}

/// One commit of the upstream history.
#[derive(Clone, Debug, PartialEq, Eq)]
pub struct RepoCommit {
    pub sha: String,
    pub date: String,
}

pub const LATEST_RELEASE_URL: &'static str = "https://api.github.com/repos/neovim/neovim/releases/latest";

pub const NIGHTLY_RELEASE_URL: &'static str = "https://api.github.com/repos/neovim/neovim/releases/tags/nightly";

/// Release metadata from its fields: the tag and the publication date are
/// required, the commit it points at is not.
pub fn upstream_from_fields(
    tag_name: Option<String>,
    target_commitish: Option<String>,
    published_at: Option<String>,
) -> (r: Option<UpstreamVersion>)
    ensures
        r is Some <==> (tag_name is Some && published_at is Some),
        r matches Some(u) ==> u.tag_name == tag_name->Some_0 && u.published_at == published_at->Some_0
            && u.target_commitish == target_commitish,
{
    match (tag_name, published_at) {
        (Some(tag_name), Some(published_at)) => Some(
            UpstreamVersion { tag_name, target_commitish, published_at },
        ),
        _ => None,
    }
}

/// The release document `text` has the two required string members.
pub open spec fn has_release_fields(text: Seq<char>) -> bool {
    json_text_member(text, "tag_name"@) is Some && json_text_member(text, "published_at"@) is Some
}

/// `u` holds the members of the release document `text`.
pub open spec fn release_of(text: Seq<char>, u: UpstreamVersion) -> bool {
    Some(u.tag_name@) == json_text_member(text, "tag_name"@) && Some(u.published_at@) == json_text_member(
        text,
        "published_at"@,
    ) && text_of(u.target_commitish) == json_text_member(text, "target_commitish"@)
}

/// Reads release metadata from a JSON document; `None` where the text is not
/// a JSON object or lacks a required field.
pub fn read_upstream_version(text: &str) -> (r: Option<UpstreamVersion>)
    ensures
        has_release_fields(text@) ==> (r matches Some(u) && release_of(text@, u)),
        !has_release_fields(text@) ==> r is None,
        text@.len() == 0 ==> r is None,
{
    upstream_from_fields(
        json_string_member(text, "tag_name"),
        json_string_member(text, "target_commitish"),
        json_string_member(text, "published_at"),
    )
}

/// The latest stable release, from the release API's answer.
pub fn resolve_stable(response: &str) -> (r: Result<InputVersion, CoreError>)
    ensures
        has_release_fields(response@) ==> (r matches Ok(v) && Some(v.tag_name@) == json_text_member(
            response@,
            "tag_name"@,
        ) && v.version_type == VersionType::Standard),
        !has_release_fields(response@) ==> r == Err::<InputVersion, CoreError>(CoreError::UpstreamUnavailable),
{
    match read_upstream_version(response) {
        Some(u) => Ok(InputVersion { tag_name: u.tag_name, version_type: VersionType::Standard }),
        None => Err(CoreError::UpstreamUnavailable),
    }
}

/// The upstream nightly release, from the release API's answer.
pub fn get_upstream_nightly(response: &str) -> (r: Result<UpstreamVersion, CoreError>)
    ensures
        has_release_fields(response@) ==> (r matches Ok(u) && release_of(response@, u)),
        !has_release_fields(response@) ==> r == Err::<UpstreamVersion, CoreError>(CoreError::UpstreamUnavailable),
{
    match read_upstream_version(response) {
        Some(u) => Ok(u),
        None => Err(CoreError::UpstreamUnavailable),
    }
}

/// The path of the record that the installer keeps of the local nightly.
pub fn local_nightly_record_path(downloads_dir: &str) -> (r: String)
    ensures
        r@ == downloads_dir@ + "/nightly/bob.json"@,
{
    let mut path = String::from_str(downloads_dir);
    path.append("/nightly/bob.json");
    path
}

/// The local nightly's release metadata, from the contents of its record;
/// `None` stands for a record that could not be read.
pub fn get_local_nightly(record: Option<String>) -> (r: Result<UpstreamVersion, CoreError>)
    ensures
        record is None ==> r == Err::<UpstreamVersion, CoreError>(CoreError::NoLocalNightly),
        record is Some && has_release_fields(record->Some_0@) ==> (r matches Ok(u) && release_of(
            record->Some_0@,
            u,
        )),
        record is Some && !has_release_fields(record->Some_0@) ==> r == Err::<UpstreamVersion, CoreError>(
            CoreError::NoLocalNightly,
        ),
{
    match record {
        Some(text) => match read_upstream_version(text.as_str()) {
            Some(u) => Ok(u),
            None => Err(CoreError::NoLocalNightly),
        },
        None => Err(CoreError::NoLocalNightly),
    }
}

/// The commit-list query for the window from `since` to `until`, at most one
/// page of 100 commits.
pub fn commits_query_url(since: &str, until: &str) -> (r: String)
    ensures
        r@ == "https://api.github.com/repos/neovim/neovim/commits?since="@ + since@ + "&until="@ + until@ + "&per_page=100"@,
{
    let mut url = String::from_str("https://api.github.com/repos/neovim/neovim/commits?since=");
    url.append(since);
    url.append("&until=");
    url.append(until);
    url.append("&per_page=100");
    url
}

/// Every element of a commit list has its hash and its date.
pub open spec fn all_filled(cs: Seq<(Option<Seq<char>>, Option<Seq<char>>)>) -> bool {
    forall|i: int| 0 <= i < cs.len() ==> (#[trigger] cs[i]).0 is Some && cs[i].1 is Some
}

/// `v` holds the hashes and dates of `cs`, in order.
pub open spec fn commits_of(v: Seq<RepoCommit>, cs: Seq<(Option<Seq<char>>, Option<Seq<char>>)>) -> bool {
    v.len() == cs.len() && forall|i: int|
        0 <= i < v.len() ==> Some((#[trigger] v[i]).sha@) == cs[i].0 && Some(v[i].date@) == cs[i].1
}

/// The commits of the release API's answer to a commit-list query, in the
/// order given; any entry without a hash or a date fails the whole answer.
pub fn get_commits_for_nightly(response: &str) -> (r: Result<Vec<RepoCommit>, CoreError>)
    ensures
        match json_commits_of(response@) {
            Some(cs) => if all_filled(cs) {
                r matches Ok(v) && commits_of(v@, cs)
            } else {
                r == Err::<Vec<RepoCommit>, CoreError>(CoreError::UpstreamUnavailable)
            },
            None => r == Err::<Vec<RepoCommit>, CoreError>(CoreError::UpstreamUnavailable),
        },
        response@.len() == 0 ==> r is Err,
{
    let fields = match json_commit_fields(response) {
        Some(fields) => fields,
        None => return Err(CoreError::UpstreamUnavailable),
    };
    let ghost cs = pair_texts(fields@);
    let mut commits: Vec<RepoCommit> = Vec::new();
    let mut i: usize = 0;
    while i < fields.len()
        invariant
            i <= fields.len(),
            cs == pair_texts(fields@),
            json_commits_of(response@) == Some(cs),
            cs.len() == fields.len(),
            commits@.len() == i,
            forall|j: int| 0 <= j < i ==> (#[trigger] cs[j]).0 is Some && cs[j].1 is Some,
            forall|j: int|
                0 <= j < i ==> Some((#[trigger] commits@[j]).sha@) == cs[j].0 && Some(commits@[j].date@)
                    == cs[j].1,
        decreases fields.len() - i,
    {
        match &fields[i] {
            (Some(sha), Some(date)) => {
                commits.push(RepoCommit { sha: sha.clone(), date: date.clone() });
            },
            _ => {
                assert(cs[i as int] == (text_of(fields@[i as int].0), text_of(fields@[i as int].1)));
                assert(!(cs[i as int].0 is Some && cs[i as int].1 is Some));
                assert(!all_filled(cs));
                return Err(CoreError::UpstreamUnavailable);
            },
        }
        i = i + 1;
    }
    Ok(commits)
}

} // verus!
