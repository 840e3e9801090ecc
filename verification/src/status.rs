//! Parsing and classifying a porcelain status report: NUL-terminated records
//! of a two-character status code, a space, and a path. Every record must be
//! well formed; a path matching an ignore pattern is excluded from the dirty
//! verdict, and the repository is dirty iff some record's path matches no
//! pattern.

use vstd::prelude::*;
use vstd::string::StrSliceExecFns;
use crate::errors::MetadataError;
use crate::globs::{IgnorePattern, path_ignored, path_ignored_by};
use crate::text::{split_terminator, split_on};

verus! {

/// The status codes a record may carry in either of its two positions.
pub open spec fn is_status_code(c: char) -> bool {
    c == ' ' || c == 'M' || c == 'T' || c == 'A' || c == 'D' || c == 'R' || c == 'C' || c == 'U'
}

/// Executable check matching `is_status_code`.
pub fn status_code(c: char) -> (r: bool)
    ensures
        r == is_status_code(c),
{
    c == ' ' || c == 'M' || c == 'T' || c == 'A' || c == 'D' || c == 'R' || c == 'C' || c == 'U'
}

/// The record reports an untracked path, which the status request excludes.
pub open spec fn record_untracked(r: Seq<char>) -> bool {
    r.len() >= 3 && r[0] == '?' && r[1] == '?' && r[2] == ' '
}

/// The record reports an ignored path, which the status request excludes.
pub open spec fn record_ignored(r: Seq<char>) -> bool {
    r.len() >= 3 && r[0] == '!' && r[1] == '!' && r[2] == ' '
}

/// A well-formed record: two status codes, a space, and a non-empty path.
pub open spec fn record_wf(r: Seq<char>) -> bool {
    r.len() >= 4 && is_status_code(r[0]) && is_status_code(r[1]) && r[2] == ' '
}

/// The path a well-formed record reports: everything past the fixed-width
/// three-character prefix.
pub open spec fn record_path(r: Seq<char>) -> Seq<char> {
    r.skip(3)
}

/// The error a record that is not well formed is reported with.
pub open spec fn record_fault(r: Seq<char>, index: int) -> MetadataError {
    if record_untracked(r) {
        MetadataError::UntrackedRecord { index: index as usize }
    } else if record_ignored(r) {
        MetadataError::IgnoredRecord { index: index as usize }
    } else {
        MetadataError::MalformedRecord { index: index as usize }
    }
}

/// At least one record's path matches no ignore pattern.
pub open spec fn report_dirty(records: Seq<Seq<char>>, pats: Seq<Seq<char>>) -> bool {
    exists|i: int|
        0 <= i < records.len() && !path_ignored(record_path(#[trigger] records[i]), pats)
}

/// The verdict on a record sequence, from record `k` on: the dirty flag if
/// every record from `k` on is well formed, else the error for the first
/// offending record.
pub open spec fn classify_from(
    records: Seq<Seq<char>>,
    pats: Seq<Seq<char>>,
    k: int,
) -> Result<bool, MetadataError>
    decreases records.len() - k,
        when 0 <= k <= records.len()
{
    if k >= records.len() {
        Ok(report_dirty(records, pats))
    } else if record_wf(records[k]) {
        classify_from(records, pats, k + 1)
    } else {
        Err(record_fault(records[k], k))
    }
}

/// The verdict on a whole status report: its NUL-terminated records,
/// classified in order.
pub open spec fn classify_spec(report: Seq<char>, pats: Seq<Seq<char>>) -> Result<
    bool,
    MetadataError,
> {
    classify_from(split_terminator(report, '\0'), pats, 0)
}

/// Splits a status report into its NUL-terminated records.
pub fn split_report(report: &str) -> (r: Vec<String>)
    ensures
        r.deep_view() == split_terminator(report@, '\0'),
{
    split_on(report, '\0', true)
}

/// Executable check matching `record_untracked`.
fn untracked_record(r: &str) -> (b: bool)
    ensures
        b == record_untracked(r@),
{
    let n = r.unicode_len();
    n >= 3 && r.get_char(0) == '?' && r.get_char(1) == '?' && r.get_char(2) == ' '
}

/// Executable check matching `record_ignored`.
fn ignored_record(r: &str) -> (b: bool)
    ensures
        b == record_ignored(r@),
{
    let n = r.unicode_len();
    n >= 3 && r.get_char(0) == '!' && r.get_char(1) == '!' && r.get_char(2) == ' '
}

/// Executable check matching `record_wf`.
fn well_formed_record(r: &str) -> (b: bool)
    ensures
        b == record_wf(r@),
{
    let n = r.unicode_len();
    n >= 4 && status_code(r.get_char(0)) && status_code(r.get_char(1)) && r.get_char(2) == ' '
}

/// Classifies a status report against a set of ignore patterns, as
/// `classify_spec` says: `Ok(dirty)` when every record is well formed, the
/// first offending record's error otherwise.
pub fn classify_report(report: &str, patterns: &Vec<IgnorePattern>) -> (r: Result<
    bool,
    MetadataError,
>)
    requires
        forall|i: int| 0 <= i < patterns@.len() ==> (#[trigger] patterns@[i]).wf(),
    ensures
        r == classify_spec(report@, patterns.deep_view()),
{
    let records = split_report(report);
    let ghost dv = records.deep_view();
    let ghost pats = patterns.deep_view();
    let n = records.len();
    let mut dirty = false;
    let mut j: usize = 0;
    while j < n
        invariant
            j <= n,
            n == records@.len(),
            dv == records.deep_view(),
            dv.len() == n,
            pats == patterns.deep_view(),
            dv == split_terminator(report@, '\0'),
            forall|i: int| 0 <= i < patterns@.len() ==> (#[trigger] patterns@[i]).wf(),
            forall|i: int| 0 <= i < j ==> record_wf(#[trigger] dv[i]),
            classify_from(dv, pats, 0) == classify_from(dv, pats, j as int),
            dirty == exists|i: int|
                0 <= i < j && !path_ignored(record_path(#[trigger] dv[i]), pats),
        decreases n - j,
    {
        assert(dv[j as int] == records@[j as int]@);
        let rec: &String = &records[j];
        if untracked_record(rec.as_str()) {
            proof {
                assert(classify_from(dv, pats, j as int) == Err::<bool, MetadataError>(
                    MetadataError::UntrackedRecord { index: j },
                ));
            }
            return Err(MetadataError::UntrackedRecord { index: j });
        }
        if ignored_record(rec.as_str()) {
            proof {
                assert(classify_from(dv, pats, j as int) == Err::<bool, MetadataError>(
                    MetadataError::IgnoredRecord { index: j },
                ));
            }
            return Err(MetadataError::IgnoredRecord { index: j });
        }
        if !well_formed_record(rec.as_str()) {
            proof {
                assert(classify_from(dv, pats, j as int) == Err::<bool, MetadataError>(
                    MetadataError::MalformedRecord { index: j },
                ));
            }
            return Err(MetadataError::MalformedRecord { index: j });
        }
        let len = rec.as_str().unicode_len();
        let path = rec.as_str().substring_char(3, len);
        proof {
            assert(path@ =~= record_path(dv[j as int]));
        }
        if !path_ignored_by(path, patterns) {
            dirty = true;
        }
        j += 1;
    }
    proof {
        assert(classify_from(dv, pats, n as int) == Ok::<bool, MetadataError>(
            report_dirty(dv, pats),
        ));
        assert(dirty == report_dirty(dv, pats));
    }
    Ok(dirty)
}

} // verus!
