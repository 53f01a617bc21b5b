use vstd::prelude::*;
use vstd::string::*;
use crate::error::CoreError;
use crate::patterns::{find_version, first_version_match};
use crate::text::{contains_seq, contains_str};

verus! {

/// What reading the active-version marker gave.
#[derive(Clone, Debug, PartialEq, Eq)]
pub enum MarkerRead {
    /// The marker was read; it holds the active version.
    Present(String),
    /// There is no marker.
    Missing,
    /// The marker exists but could not be read.
    Unreadable,
}

/// Where the search for the active version stands after the marker.
#[derive(Clone, Debug, PartialEq, Eq)]
pub enum CurrentVersion {
    /// The marker names the active version.
    Recorded(String),
    /// There is no marker: the installed binary has to be asked.
    ProbeBinary,
}

/// Some stored directory name occurs within the requested version.
pub open spec fn installed_in(version: Seq<char>, entries: Seq<String>) -> bool {
    exists|i: int| 0 <= i < entries.len() && contains_seq(version, #[trigger] entries[i]@)
}

/// Whether a version is installed, given the names of the directories in
/// the downloads directory: true when the requested version string contains
/// one of them.
pub fn is_version_installed(version: &str, entries: &Vec<String>) -> (r: bool)
    ensures
        r == installed_in(version@, entries@),
{
    let mut i: usize = 0;
    while i < entries.len()
        invariant
            i <= entries.len(),
            forall|j: int| 0 <= j < i ==> !contains_seq(version@, #[trigger] entries@[j]@),
        decreases entries.len() - i,
    {
        if contains_str(version, entries[i].as_str()) {
            return true;
        }
        i = i + 1;
    }
    false
}

/// The path of the active-version marker.
pub fn used_marker_path(downloads_dir: &str) -> (r: String)
    ensures
        r@ == downloads_dir@ + "/used"@,
{
    let mut path = String::from_str(downloads_dir);
    path.append("/used");
    path
}

/// The first step towards the active version: the marker's contents as they
/// stand, a probe of the binary where there is no marker, and a corrupted
/// state, naming the marker, where it could not be read.
pub fn get_current_version(marker: MarkerRead, marker_path: &str) -> (r: Result<CurrentVersion, CoreError>)
    ensures
        marker matches MarkerRead::Present(v) ==> (r matches Ok(CurrentVersion::Recorded(w)) && w@ == v@),
        marker is Missing ==> r == Ok::<CurrentVersion, CoreError>(CurrentVersion::ProbeBinary),
        marker is Unreadable ==> (r matches Err(CoreError::CorruptedStateFile(p)) && p@ == marker_path@),
{
    match marker {
        MarkerRead::Present(v) => Ok(CurrentVersion::Recorded(v)),
        MarkerRead::Missing => Ok(CurrentVersion::ProbeBinary),
        MarkerRead::Unreadable => Err(CoreError::CorruptedStateFile(String::from_str(marker_path))),
    }
}

/// The active version from what the binary printed for its version flag;
/// `None` stands for a binary that could not be run. A development build
/// is the nightly; otherwise the first `v<major>.<minor>.<patch>` printed is
/// the version.
pub fn version_from_probe(output: Option<String>) -> (r: Result<String, CoreError>)
    ensures
        output is None ==> r == Err::<String, CoreError>(CoreError::ApplicationNotInstalled),
        output is Some && contains_seq(output->Some_0@, "dev"@) ==> (r matches Ok(v) && v@ == "nightly"@),
        output is Some && !contains_seq(output->Some_0@, "dev"@) ==> match first_version_match(
            output->Some_0@,
        ) {
            Some(t) => r matches Ok(v) && v@ == t,
            None => r matches Err(CoreError::UnrecognizedVersionOutput(o)) && o@ == output->Some_0@,
        },
{
    let o = match output {
        Some(o) => o,
        None => return Err(CoreError::ApplicationNotInstalled),
    };
    if contains_str(o.as_str(), "dev") {
        return Ok(String::from_str("nightly"));
    }
    match find_version(o.as_str()) {
        Ok(Some(v)) => Ok(v),
        Ok(None) => Err(CoreError::UnrecognizedVersionOutput(o)),
        Err(_) => Err(CoreError::PatternUnavailable),
    }
}

/// Whether `version` is the active one: the active version contains it.
/// `None` stands for an active version that could not be found, which
/// counts as not used.
pub fn is_version_used(version: &str, current: Option<String>) -> (r: bool)
    ensures
        r == (current is Some && contains_seq(current->Some_0@, version@)),
{
    match current {
        Some(c) => contains_str(c.as_str(), version),
        None => false,
    }
}

/// The outcome of a child process from its exit code; `None` stands for a
/// process ended by a signal.
pub fn handle_subprocess(code: Option<i32>) -> (r: Result<(), CoreError>)
    ensures
        code == Some(0i32) ==> r is Ok,
        code is Some && code->Some_0 != 0 ==> r == Err::<(), CoreError>(
            CoreError::ProcessFailed(code->Some_0),
        ),
        code is None ==> r == Err::<(), CoreError>(CoreError::ProcessTerminated),
{
    match code {
        Some(0) => Ok(()),
        Some(c) => Err(CoreError::ProcessFailed(c)),
        None => Err(CoreError::ProcessTerminated),
    }
}

} // verus!
