//! General properties of the classifier, stated and proved over the spec
//! functions that the executable functions' contracts use.

use vstd::prelude::*;
use crate::errors::MetadataError;
use crate::globs::path_ignored;
use crate::hash::{dirty_marker, is_hex_digit, is_valid_hash, metadata_hash_spec, resolve_spec};
use crate::status::{classify_from, record_path, record_wf, report_dirty};
use crate::text::{trim_end, split_terminator};

verus! {

/// Any prefix of length at least 9 of a full 40-character hex commit
/// identifier is itself a well-formed identifier, and a full identifier is
/// returned whole: it carries no trailing whitespace to trim.
pub proof fn lemma_short_form_prefix(h: Seq<char>, n: int)
    requires
        h.len() == 40,
        forall|i: int| 0 <= i < h.len() ==> is_hex_digit(#[trigger] h[i]),
        9 <= n <= 40,
    ensures
        is_valid_hash(h.take(n)),
        is_valid_hash(h),
        trim_end(h) == h,
{
    assert(forall|i: int| 0 <= i < n ==> h.take(n)[i] == #[trigger] h[i]);
    assert(!crate::text::is_trailing_ws(h[39]));
    assert(trim_end(h) =~= h);
}

/// Every record from `k` on well formed means classification succeeds and
/// returns the dirty verdict over the whole record sequence.
pub proof fn lemma_classify_all_wf(records: Seq<Seq<char>>, pats: Seq<Seq<char>>, k: int)
    requires
        0 <= k <= records.len(),
        forall|i: int| 0 <= i < records.len() ==> record_wf(#[trigger] records[i]),
    ensures
        classify_from(records, pats, k) == Ok::<bool, MetadataError>(report_dirty(records, pats)),
    decreases records.len() - k,
{
    if k < records.len() {
        lemma_classify_all_wf(records, pats, k + 1);
    }
}

/// A status report with no records is clean: the returned hash is the
/// trimmed identifier itself, with no dirty marker.
pub proof fn lemma_empty_report_hash_unchanged(
    hash_raw: Seq<char>,
    report: Seq<char>,
    pats: Seq<Seq<char>>,
)
    requires
        split_terminator(report, '\0').len() == 0,
        is_valid_hash(trim_end(hash_raw)),
    ensures
        !report_dirty(split_terminator(report, '\0'), pats),
        resolve_spec(hash_raw, report, pats) == Ok::<Seq<char>, MetadataError>(trim_end(hash_raw)),
{
    let records = split_terminator(report, '\0');
    assert(!report_dirty(records, pats));
    lemma_classify_all_wf(records, pats, 0);
}

/// One well-formed record whose path matches no ignore pattern makes the
/// whole report dirty; when every record is well formed, the dirty marker is
/// then appended to the trimmed identifier, exactly once.
pub proof fn lemma_unignored_record_dirty(
    hash_raw: Seq<char>,
    report: Seq<char>,
    pats: Seq<Seq<char>>,
    w: int,
)
    requires
        is_valid_hash(trim_end(hash_raw)),
        forall|i: int|
            0 <= i < split_terminator(report, '\0').len() ==> record_wf(
                #[trigger] split_terminator(report, '\0')[i],
            ),
        0 <= w < split_terminator(report, '\0').len(),
        !path_ignored(record_path(split_terminator(report, '\0')[w]), pats),
    ensures
        report_dirty(split_terminator(report, '\0'), pats),
        resolve_spec(hash_raw, report, pats) == Ok::<Seq<char>, MetadataError>(
            trim_end(hash_raw) + dirty_marker(),
        ),
{
    let records = split_terminator(report, '\0');
    assert(report_dirty(records, pats));
    lemma_classify_all_wf(records, pats, 0);
}

/// When every record's path matches some ignore pattern, the report is
/// clean: the returned hash carries no dirty marker.
pub proof fn lemma_all_ignored_clean(hash_raw: Seq<char>, report: Seq<char>, pats: Seq<Seq<char>>)
    requires
        is_valid_hash(trim_end(hash_raw)),
        forall|i: int|
            0 <= i < split_terminator(report, '\0').len() ==> record_wf(
                #[trigger] split_terminator(report, '\0')[i],
            ),
        forall|i: int|
            0 <= i < split_terminator(report, '\0').len() ==> path_ignored(
                record_path(#[trigger] split_terminator(report, '\0')[i]),
                pats,
            ),
    ensures
        !report_dirty(split_terminator(report, '\0'), pats),
        resolve_spec(hash_raw, report, pats) == Ok::<Seq<char>, MetadataError>(trim_end(hash_raw)),
{
    let records = split_terminator(report, '\0');
    assert(!report_dirty(records, pats));
    lemma_classify_all_wf(records, pats, 0);
}

/// Classification is a pure function of the three input texts: two runs on
/// the same inputs yield the same verdict, with no hidden state.
pub proof fn lemma_classification_deterministic(
    r1: Result<Seq<char>, MetadataError>,
    r2: Result<Seq<char>, MetadataError>,
    hash_raw: Seq<char>,
    report: Seq<char>,
    patterns_text: Seq<char>,
)
    requires
        r1 == metadata_hash_spec(hash_raw, report, patterns_text),
        r2 == metadata_hash_spec(hash_raw, report, patterns_text),
    ensures
        r1 == r2,
{
}

} // verus!
