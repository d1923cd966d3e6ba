//! Checking that a path names a directory.
//!
//! Looking at the filesystem is left to the caller, who reports what was
//! found as a [`PathStatus`]. The decision and the wording of the failure
//! are made here.

use crate::message::{quote, quoted, verdict_view};
use vstd::prelude::*;

verus! {

/// What a metadata query found at a path.
///
/// The two answers are kept as they were given: `is_dir` is only consulted
/// for a path that exists.
#[derive(Clone, Copy, Debug)]
pub struct PathStatus {
    /// Something exists at the path.
    pub exists: bool,
    /// What exists at the path is a directory.
    pub is_dir: bool,
}

/// The message for a path at which nothing was found:
/// `'<path>' does not exist`.
pub open spec fn missing_path_message(path: Seq<char>) -> Seq<char> {
    quoted(path, " does not exist"@)
}

/// The message for a path at which something other than a directory was
/// found: `'<path>' should be directory`.
pub open spec fn not_directory_message(path: Seq<char>) -> Seq<char> {
    quoted(path, " should be directory"@)
}

/// The verdict on `path` given what was found there. Existence is judged
/// first, so a path that does not exist is reported as missing whatever
/// `is_dir` says.
pub open spec fn path_verdict(path: Seq<char>, status: PathStatus) -> Result<(), Seq<char>> {
    if !status.exists {
        Err(missing_path_message(path))
    } else if !status.is_dir {
        Err(not_directory_message(path))
    } else {
        Ok(())
    }
}

/// Accepts `path` when `status` says that it exists and is a directory, and
/// otherwise reports it, quoted verbatim, with the reason.
pub fn is_valid_path(path: String, status: PathStatus) -> (verdict: Result<(), String>)
    ensures
        verdict_view(verdict) == path_verdict(path@, status),
        !status.exists ==> (verdict matches Err(message) && message@
            == missing_path_message(path@)),
        status.exists && !status.is_dir ==> (verdict matches Err(message) && message@
            == not_directory_message(path@)),
        status.exists && status.is_dir ==> verdict is Ok,
{
    if !status.exists {
        return Err(quote(path.as_str(), " does not exist"));
    }
    if !status.is_dir {
        return Err(quote(path.as_str(), " should be directory"));
    }
    Ok(())
}

/// Judging the same path twice, with the filesystem reporting the same both
/// times, gives the same verdict and the same message.
pub proof fn lemma_path_verdicts_agree(
    path: Seq<char>,
    status: PathStatus,
    first: Result<(), String>,
    second: Result<(), String>,
)
    requires
        verdict_view(first) == path_verdict(path, status),
        verdict_view(second) == path_verdict(path, status),
    ensures
        verdict_view(first) == verdict_view(second),
{
}

} // verus!
