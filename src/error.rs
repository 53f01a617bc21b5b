use vstd::prelude::*;

verus! {

/// Every failure that the version core reports. Variants that concern a
/// path or a token carry it, so that a message can name it.
#[derive(Clone, Debug, PartialEq, Eq)]
pub enum CoreError {
    /// The token is neither an alias, a semantic version nor a commit hash.
    InvalidVersionToken(String),
    /// A configured directory does not exist.
    DirectoryNotFound(String),
    /// The default downloads directory could not be created.
    DirectoryCreateFailed(String),
    /// The platform reports no home directory.
    NoHomeDirectory,
    /// The platform reports no local data directory.
    NoLocalDataDirectory,
    /// The active-version marker exists but could not be read.
    CorruptedStateFile(String),
    /// The application binary could not be run.
    ApplicationNotInstalled,
    /// The application's version output names no version.
    UnrecognizedVersionOutput(String),
    /// The release API could not be reached or answered unexpectedly.
    UpstreamUnavailable,
    /// No readable record of a local nightly build.
    NoLocalNightly,
    /// Removing or reading a path failed.
    FilesystemOperationFailed(String),
    /// A text pattern could not be compiled.
    PatternUnavailable,
    /// A child process exited with a non-zero code.
    ProcessFailed(i32),
    /// A child process was ended by a signal.
    ProcessTerminated,
}

} // verus!
