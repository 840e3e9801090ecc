//! The commit identifier: hex validation of the resolved reference, and the
//! dirty marker appended when the status report holds unignored changes.

use vstd::prelude::*;
use vstd::string::StrSliceExecFns;
use vstd::string::StringExecFns;
use crate::errors::MetadataError;
use crate::globs::{IgnorePattern, parse_patterns, pattern_list_spec};
use crate::status::{classify_report, classify_spec};
use crate::text::{trim_end, trim_end_index, trimmed_end_len, lemma_trimmed_end_len_bounds};

verus! {

/// A hexadecimal digit as it appears in a commit identifier (lower case).
pub open spec fn is_hex_digit(c: char) -> bool {
    ('0' <= c && c <= '9') || ('a' <= c && c <= 'f')
}

/// Executable check matching `is_hex_digit`.
pub fn hex_digit(c: char) -> (r: bool)
    ensures
        r == is_hex_digit(c),
{
    ('0' <= c && c <= '9') || ('a' <= c && c <= 'f')
}

/// A well-formed commit identifier: at least 9 characters, all hex digits.
pub open spec fn is_valid_hash(s: Seq<char>) -> bool {
    s.len() >= 9 && forall|i: int| 0 <= i < s.len() ==> is_hex_digit(#[trigger] s[i])
}

/// Validates the output of a reference-resolution request: once trailing
/// whitespace is trimmed, the line must be a well-formed commit identifier,
/// which is returned unchanged; anything else is a `BadCommitId` error.
pub fn parse_commit_hash(raw: &str) -> (r: Result<String, MetadataError>)
    ensures
        is_valid_hash(trim_end(raw@)) ==> (r matches Ok(h) && h@ == trim_end(raw@)),
        !is_valid_hash(trim_end(raw@)) ==> r == Result::<String, MetadataError>::Err(
            MetadataError::BadCommitId,
        ),
{
    proof {
        lemma_trimmed_end_len_bounds(raw@);
    }
    let end = trim_end_index(raw);
    if end < 9 {
        return Err(MetadataError::BadCommitId);
    }
    let mut j: usize = 0;
    while j < end
        invariant
            j <= end,
            9 <= end <= raw@.len(),
            end == trimmed_end_len(raw@),
            forall|i: int| 0 <= i < j ==> is_hex_digit(#[trigger] raw@[i]),
        decreases end - j,
    {
        if !hex_digit(raw.get_char(j)) {
            proof {
                assert(trim_end(raw@)[j as int] == raw@[j as int]);
            }
            return Err(MetadataError::BadCommitId);
        }
        j += 1;
    }
    let h = String::from_str(raw.substring_char(0, end));
    proof {
        assert(h@ =~= trim_end(raw@));
        assert(forall|i: int| 0 <= i < h@.len() ==> is_hex_digit(#[trigger] h@[i]));
    }
    Ok(h)
}

/// The marker appended to the hash of a dirty working tree.
pub open spec fn dirty_marker() -> Seq<char> {
    "-modified"@
}

/// Appends the dirty marker to the hash when the tree is dirty, and leaves
/// the hash alone when it is clean.
pub fn apply_dirty_marker(hash: String, dirty: bool) -> (r: String)
    ensures
        dirty ==> r@ == hash@ + dirty_marker(),
        !dirty ==> r@ == hash@,
{
    if dirty {
        hash.concat("-modified")
    } else {
        hash
    }
}

/// The full verdict on the two tool outputs: the trimmed, validated commit
/// identifier, suffixed with the dirty marker iff the classified status
/// report is dirty; the hash error takes precedence over record errors.
pub open spec fn resolve_spec(
    hash_raw: Seq<char>,
    report: Seq<char>,
    pats: Seq<Seq<char>>,
) -> Result<Seq<char>, MetadataError> {
    let h = trim_end(hash_raw);
    if !is_valid_hash(h) {
        Err(MetadataError::BadCommitId)
    } else {
        match classify_spec(report, pats) {
            Ok(dirty) => Ok(
                if dirty {
                    h + dirty_marker()
                } else {
                    h
                },
            ),
            Err(e) => Err(e),
        }
    }
}

/// Resolves the final hash from the reference-resolution output and the
/// status report, against an already-checked pattern set, as
/// `resolve_spec` says.
pub fn resolve_hash(hash_raw: &str, report: &str, patterns: &Vec<IgnorePattern>) -> (r: Result<
    String,
    MetadataError,
>)
    requires
        forall|i: int| 0 <= i < patterns@.len() ==> (#[trigger] patterns@[i]).wf(),
    ensures
        r is Ok <==> resolve_spec(hash_raw@, report@, patterns.deep_view()) is Ok,
        r matches Ok(h) ==> Ok::<Seq<char>, MetadataError>(h@) == resolve_spec(
            hash_raw@,
            report@,
            patterns.deep_view(),
        ),
        r matches Err(e) ==> Err::<Seq<char>, MetadataError>(e) == resolve_spec(
            hash_raw@,
            report@,
            patterns.deep_view(),
        ),
{
    let hash = match parse_commit_hash(hash_raw) {
        Ok(h) => h,
        Err(e) => {
            return Err(e);
        },
    };
    let dirty = match classify_report(report, patterns) {
        Ok(d) => d,
        Err(e) => {
            return Err(e);
        },
    };
    Ok(apply_dirty_marker(hash, dirty))
}

/// The verdict from the raw inputs alone: the pattern-list text is parsed
/// first (its errors take precedence), then the hash is validated, then the
/// report is classified.
pub open spec fn metadata_hash_spec(
    hash_raw: Seq<char>,
    report: Seq<char>,
    patterns_text: Seq<char>,
) -> Result<Seq<char>, MetadataError> {
    match pattern_list_spec(patterns_text) {
        Ok(pats) => resolve_spec(hash_raw, report, pats),
        Err(e) => Err(e),
    }
}

/// Resolves the final hash from the three raw texts: the colon-separated
/// ignore-pattern list, the reference-resolution output, and the status
/// report, as `metadata_hash_spec` says.
pub fn git_hash_from_reports(hash_raw: &str, report: &str, patterns_text: &str) -> (r: Result<
    String,
    MetadataError,
>)
    ensures
        r is Ok <==> metadata_hash_spec(hash_raw@, report@, patterns_text@) is Ok,
        r matches Ok(h) ==> Ok::<Seq<char>, MetadataError>(h@) == metadata_hash_spec(
            hash_raw@,
            report@,
            patterns_text@,
        ),
        r matches Err(e) ==> Err::<Seq<char>, MetadataError>(e) == metadata_hash_spec(
            hash_raw@,
            report@,
            patterns_text@,
        ),
{
    let patterns = match parse_patterns(patterns_text) {
        Ok(v) => v,
        Err(e) => {
            return Err(e);
        },
    };
    resolve_hash(hash_raw, report, &patterns)
}

} // verus!
