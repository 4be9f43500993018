//! Access to the filesystem for the front end.
//!
//! The front end asks for access to one file, or to a directory and all
//! below it. The host's security scope grants or rejects. This module
//! decides what is asked of the host and what the front end hears back.
//! Whether a path is valid is for the host to judge: the caller reports its
//! answer as `granted`.

use vstd::prelude::*;

verus! {

/// How far a grant reaches.
#[derive(Clone, Copy, Debug, PartialEq, Eq, Structural)]
pub enum AccessMode {
    /// The one file at the path.
    File,
    /// The directory at the path and everything below it.
    DirectoryRecursive,
}

/// The host rejected a request. The shell cannot go on without the
/// access: the caller ends the process with `diagnostic`.
#[derive(Clone, Debug, PartialEq, Eq)]
pub struct ScopeError {
    pub path: String,
    pub mode: AccessMode,
}

/// A `ScopeError` as mathematics.
pub struct ScopeErrorView {
    pub path: Seq<char>,
    pub mode: AccessMode,
}

impl View for ScopeError {
    type V = ScopeErrorView;

    open spec fn view(&self) -> ScopeErrorView {
        ScopeErrorView { path: self.path@, mode: self.mode }
    }
}

/// The mode that a request asks for.
pub open spec fn mode_of(recursive: bool) -> AccessMode {
    if recursive {
        AccessMode::DirectoryRecursive
    } else {
        AccessMode::File
    }
}

/// What the front end hears after a grant: a sentence around the path.
pub open spec fn acknowledgment(path: Seq<char>) -> Seq<char> {
    "Hello, "@ + path + "! You've been greeted from Rust!"@
}

/// What the process ends with after a rejection.
pub open spec fn rejection_diagnostic() -> Seq<char> {
    "Failed to allow directory"@
}

/// Whether `part` occurs in `text` as one unbroken run.
pub open spec fn contains_text(text: Seq<char>, part: Seq<char>) -> bool {
    exists|from: int, to: int|
        0 <= from <= to <= text.len() && #[trigger] text.subrange(from, to) == part
}

/// What `allow_path` returns.
pub open spec fn allow_path_result(path: Seq<char>, recursive: bool, granted: bool) -> Result<
    Seq<char>,
    ScopeErrorView,
> {
    if granted {
        Ok(acknowledgment(path))
    } else {
        Err(ScopeErrorView { path, mode: mode_of(recursive) })
    }
}

/// The view of a result of `allow_path`.
pub open spec fn result_view(result: Result<String, ScopeError>) -> Result<
    Seq<char>,
    ScopeErrorView,
> {
    match result {
        Ok(text) => Ok(text@),
        Err(error) => Err(error@),
    }
}

impl ScopeError {
    /// The message to end the process with.
    pub fn diagnostic(&self) -> (message: String)
        ensures
            message@ == rejection_diagnostic(),
    {
        "Failed to allow directory".to_owned()
    }
}

/// The mode to ask the host for.
pub fn access_mode(recursive: bool) -> (mode: AccessMode)
    ensures
        mode == mode_of(recursive),
{
    if recursive {
        AccessMode::DirectoryRecursive
    } else {
        AccessMode::File
    }
}

/// Writes the acknowledgment of a grant on `path`.
pub fn acknowledge(path: &str) -> (text: String)
    ensures
        text@ == acknowledgment(path@),
        contains_text(text@, path@),
{
    let mut text = "Hello, ".to_owned();
    text.append(path);
    text.append("! You've been greeted from Rust!");
    proof {
        lemma_acknowledgment_contains_path(path@);
    }
    text
}

/// Concludes a request for access to `path`, for a directory and all below
/// it where `recursive` holds, for a single file otherwise. `granted` is the
/// host's answer to the request in the mode `access_mode(recursive)`.
/// Granted, the result is the acknowledgment, which holds the path
/// unchanged; rejected, it is the error to end the process with.
pub fn allow_path(path: &str, recursive: bool, granted: bool) -> (result: Result<String, ScopeError>)
    ensures
        result_view(result) == allow_path_result(path@, recursive, granted),
        result is Ok <==> granted,
        result matches Ok(text) ==> contains_text(text@, path@),
{
    if granted {
        Ok(acknowledge(path))
    } else {
        Err(ScopeError { path: path.to_owned(), mode: access_mode(recursive) })
    }
}

/// Concludes a request for a directory and all below it.
pub fn allow_directory(path: &str, granted: bool) -> (result: Result<String, ScopeError>)
    ensures
        result_view(result) == allow_path_result(path@, true, granted),
        result is Ok <==> granted,
        result matches Ok(text) ==> contains_text(text@, path@),
{
    allow_path(path, true, granted)
}

/// Concludes a request for a single file.
pub fn allow_file(path: &str, granted: bool) -> (result: Result<String, ScopeError>)
    ensures
        result_view(result) == allow_path_result(path@, false, granted),
        result is Ok <==> granted,
        result matches Ok(text) ==> contains_text(text@, path@),
{
    allow_path(path, false, granted)
}

/// The acknowledgment holds the path as it was given, whatever the path.
pub proof fn lemma_acknowledgment_contains_path(path: Seq<char>)
    ensures
        contains_text(acknowledgment(path), path),
{
    let text = acknowledgment(path);
    let from = "Hello, "@.len() as int;
    let to = from + path.len();
    assert(text.subrange(from, to) =~= path);
}

/// A granted request is acknowledged with a text that holds the path, be it
/// for a directory or for a file.
pub proof fn lemma_granted_path_is_echoed(path: Seq<char>, recursive: bool)
    ensures
        allow_path_result(path, recursive, true) is Ok,
        contains_text(allow_path_result(path, recursive, true)->Ok_0, path),
{
    lemma_acknowledgment_contains_path(path);
}

} // verus!
