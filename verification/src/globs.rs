//! Ignore patterns: glob patterns that exempt reported paths from the dirty
//! verdict. Compilation and matching are done by the `glob` crate; both are
//! pure functions of the pattern text and the path, so their outcomes are
//! named here and everything around them is verified against those names.

use vstd::prelude::*;
use vstd::string::StrSliceExecFns;
use crate::errors::MetadataError;
use crate::text::{split_plain, split_on};

verus! {

/// Whether `glob::Pattern::new` accepts this pattern text.
pub uninterp spec fn glob_accepts(pattern: Seq<char>) -> bool;

/// The verdict of `glob::Pattern::matches_with` for this pattern text and
/// path, under path-component-aware options: a separator must be matched by
/// a literal separator or a recursive wildcard, never by `*`, `?` or a
/// character range.
pub uninterp spec fn glob_matches(pattern: Seq<char>, path: Seq<char>) -> bool;

/// Relies on `glob::Pattern::new` of the `glob` crate: whether a pattern
/// compiles is a function of the pattern text alone.
#[verifier::external_body]
fn glob_compile_ok(pattern: &str) -> (r: bool)
    ensures
        r == glob_accepts(pattern@),
{
    glob::Pattern::new(pattern).is_ok()
}

/// Relies on `glob::Pattern::new` and `glob::Pattern::matches_with` of the
/// `glob` crate: for a pattern text that compiles, the match verdict is a
/// function of the pattern text, the path, and the fixed options alone. The
/// options make matching path-component-aware: `*`, `?` and ranges do not
/// cross a separator.
#[verifier::external_body]
fn glob_match(pattern: &str, path: &str) -> (r: bool)
    requires
        glob_accepts(pattern@),
    ensures
        r == glob_matches(pattern@, path@),
{
    let options = glob::MatchOptions {
        case_sensitive: true,
        require_literal_separator: true,
        require_literal_leading_dot: false,
    };
    glob::Pattern::new(pattern).unwrap().matches_with(path, options)
}

/// A glob pattern whose text the glob engine accepts; paths matching it are
/// exempted from the dirty verdict.
#[derive(Debug, Clone)]
pub struct IgnorePattern {
    text: String,
}

impl View for IgnorePattern {
    type V = Seq<char>;

    closed spec fn view(&self) -> Seq<char> {
        self.text@
    }
}

impl DeepView for IgnorePattern {
    type V = Seq<char>;

    open spec fn deep_view(&self) -> Seq<char> {
        self@
    }
}

impl IgnorePattern {
    /// The pattern text compiles under the glob engine.
    pub open spec fn wf(&self) -> bool {
        glob_accepts(self@)
    }

    /// Accepts exactly the texts that compile as glob patterns.
    pub fn new(text: String) -> (r: Option<IgnorePattern>)
        ensures
            r is Some <==> glob_accepts(text@),
            r matches Some(p) ==> p@ == text@ && p.wf(),
    {
        if glob_compile_ok(text.as_str()) {
            Some(IgnorePattern { text })
        } else {
            None
        }
    }

    /// The pattern's text.
    pub fn text(&self) -> (r: &str)
        ensures
            r@ == self@,
    {
        self.text.as_str()
    }
}

/// Does `path` match at least one of the patterns?
pub open spec fn path_ignored(path: Seq<char>, pats: Seq<Seq<char>>) -> bool {
    exists|i: int| 0 <= i < pats.len() && glob_matches(pats[i], path)
}

/// Executable check matching `path_ignored`.
pub fn path_ignored_by(path: &str, patterns: &Vec<IgnorePattern>) -> (r: bool)
    requires
        forall|i: int| 0 <= i < patterns@.len() ==> (#[trigger] patterns@[i]).wf(),
    ensures
        r == path_ignored(path@, patterns.deep_view()),
{
    let ghost pats = patterns.deep_view();
    let n = patterns.len();
    let mut j: usize = 0;
    while j < n
        invariant
            j <= n,
            n == patterns@.len(),
            pats == patterns.deep_view(),
            forall|i: int| 0 <= i < patterns@.len() ==> (#[trigger] patterns@[i]).wf(),
            forall|i: int| 0 <= i < j ==> !glob_matches(#[trigger] pats[i], path@),
        decreases n - j,
    {
        if glob_match(patterns[j].text(), path) {
            assert(glob_matches(pats[j as int], path@));
            return true;
        }
        j += 1;
    }
    false
}

/// The parse of a colon-separated pattern list, from entry `k` on: the list
/// of entries if every one from `k` on is non-empty and compiles, else the
/// error for the first offending entry.
pub open spec fn pattern_parts_from(parts: Seq<Seq<char>>, k: int) -> Result<
    Seq<Seq<char>>,
    MetadataError,
>
    decreases parts.len() - k,
        when 0 <= k <= parts.len()
{
    if k >= parts.len() {
        Ok(parts)
    } else if parts[k].len() == 0 {
        Err(MetadataError::EmptyPattern { index: k as usize })
    } else if !glob_accepts(parts[k]) {
        Err(MetadataError::InvalidPattern { index: k as usize })
    } else {
        pattern_parts_from(parts, k + 1)
    }
}

/// The parse of a whole pattern-list text: an empty text means no patterns;
/// otherwise the text splits on `:` and every entry must be a non-empty,
/// compiling pattern.
pub open spec fn pattern_list_spec(text: Seq<char>) -> Result<Seq<Seq<char>>, MetadataError> {
    if text.len() == 0 {
        Ok(Seq::empty())
    } else {
        pattern_parts_from(split_plain(text, ':'), 0)
    }
}

/// Parses a colon-separated pattern list, as `pattern_list_spec` says.
pub fn parse_patterns(text: &str) -> (r: Result<Vec<IgnorePattern>, MetadataError>)
    ensures
        r is Ok <==> pattern_list_spec(text@) is Ok,
        r matches Ok(v) ==> Ok::<_, MetadataError>(v.deep_view()) == pattern_list_spec(text@)
            && forall|i: int| 0 <= i < v@.len() ==> (#[trigger] v@[i]).wf(),
        r matches Err(e) ==> Err::<Seq<Seq<char>>, _>(e) == pattern_list_spec(text@),
{
    if text.is_empty() {
        let r: Vec<IgnorePattern> = Vec::new();
        proof {
            assert(r.deep_view() =~= Seq::<Seq<char>>::empty());
        }
        return Ok(r);
    }
    let parts = split_on(text, ':', false);
    let ghost dv = parts.deep_view();
    let n = parts.len();
    let mut out: Vec<IgnorePattern> = Vec::new();
    let mut k: usize = 0;
    while k < n
        invariant
            k <= n,
            n == parts@.len(),
            dv == parts.deep_view(),
            dv.len() == n,
            text@.len() != 0,
            dv == split_plain(text@, ':'),
            pattern_parts_from(dv, 0) == pattern_parts_from(dv, k as int),
            out.deep_view() =~= dv.take(k as int),
            forall|i: int| 0 <= i < out@.len() ==> (#[trigger] out@[i]).wf(),
        decreases n - k,
    {
        assert(dv[k as int] == parts@[k as int].deep_view());
        let part: &String = &parts[k];
        if part.as_str().is_empty() {
            proof {
                assert(dv[k as int].len() == 0);
                assert(pattern_parts_from(dv, k as int) == Err::<Seq<Seq<char>>, MetadataError>(
                    MetadataError::EmptyPattern { index: k },
                ));
            }
            return Err(MetadataError::EmptyPattern { index: k });
        }
        if !glob_compile_ok(part.as_str()) {
            proof {
                assert(dv[k as int].len() > 0 && !glob_accepts(dv[k as int]));
                assert(pattern_parts_from(dv, k as int) == Err::<Seq<Seq<char>>, MetadataError>(
                    MetadataError::InvalidPattern { index: k },
                ));
            }
            return Err(MetadataError::InvalidPattern { index: k });
        }
        let p = IgnorePattern { text: part.clone() };
        let ghost old_out = out.deep_view();
        out.push(p);
        proof {
            assert(out.deep_view() =~= old_out.push(dv[k as int]));
            assert(out.deep_view() =~= dv.take(k as int + 1));
        }
        k += 1;
    }
    proof {
        assert(dv.take(n as int) =~= dv);
    }
    Ok(out)
}

} // verus!
