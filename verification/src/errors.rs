//! The failures that metadata resolution can report.

use vstd::prelude::*;

verus! {

/// Why commit-hash resolution or status classification was aborted. Indices
/// point at the first offending entry of the colon-separated pattern list or
/// of the status report's record sequence.
#[derive(Clone, Copy, Debug, PartialEq, Eq, Structural)]
pub enum MetadataError {
    /// The resolved reference was not a well-formed commit identifier
    /// (shorter than 9 characters, or not all lower-case hex digits).
    BadCommitId,
    /// The pattern list held an empty entry between two colons.
    EmptyPattern { index: usize },
    /// The pattern list held an entry the glob engine refused.
    InvalidPattern { index: usize },
    /// A status record reported an untracked path, which the status request
    /// had excluded.
    UntrackedRecord { index: usize },
    /// A status record reported an ignored path, which the status request
    /// had excluded.
    IgnoredRecord { index: usize },
    /// A status record did not have the fixed two-code-and-path shape.
    MalformedRecord { index: usize },
    /// The tool's exit status did not signal success.
    CommandFailed,
    /// The tool's output was not valid UTF-8.
    NotUtf8,
}

} // verus!
