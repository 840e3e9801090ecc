//! Character-level text helpers: splitting a payload into pieces on a
//! separator character, and trimming trailing whitespace.

use vstd::prelude::*;
use vstd::string::StrSliceExecFns;
use vstd::string::StringExecFns;

verus! {

/// The pieces of `s[cur..]` split on `sep`, with `s[start..cur]` being the
/// piece begun so far. With `term` true the separator is a terminator: a
/// trailing separator closes the last piece instead of opening an empty one,
/// and an empty input has no pieces at all.
pub open spec fn split_from(
    s: Seq<char>,
    sep: char,
    start: int,
    cur: int,
    term: bool,
) -> Seq<Seq<char>>
    decreases s.len() - cur,
        when 0 <= start <= cur <= s.len()
{
    if cur >= s.len() {
        if term && start >= s.len() {
            Seq::empty()
        } else {
            seq![s.subrange(start, s.len() as int)]
        }
    } else if s[cur] == sep {
        seq![s.subrange(start, cur)] + split_from(s, sep, cur + 1, cur + 1, term)
    } else {
        split_from(s, sep, start, cur + 1, term)
    }
}

/// Split on a terminator: each piece ends at a `sep`, and a final piece
/// without one is still reported; an empty input yields no pieces.
pub open spec fn split_terminator(s: Seq<char>, sep: char) -> Seq<Seq<char>> {
    split_from(s, sep, 0, 0, true)
}

/// Plain split: one more piece than there are separators, empty pieces kept.
pub open spec fn split_plain(s: Seq<char>, sep: char) -> Seq<Seq<char>> {
    split_from(s, sep, 0, 0, false)
}

/// Splits `s` on the character `sep`, with terminator semantics when `term`.
pub fn split_on(s: &str, sep: char, term: bool) -> (r: Vec<String>)
    ensures
        r.deep_view() == split_from(s@, sep, 0, 0, term),
{
    let n: usize = s.unicode_len();
    let mut r: Vec<String> = Vec::new();
    let mut start: usize = 0;
    let mut i: usize = 0;
    while i < n
        invariant
            start <= i <= n,
            n == s@.len(),
            split_from(s@, sep, 0, 0, term) == r.deep_view() + split_from(
                s@,
                sep,
                start as int,
                i as int,
                term,
            ),
        decreases n - i,
    {
        let c = s.get_char(i);
        if c == sep {
            let piece = String::from_str(s.substring_char(start, i));
            let ghost old_r = r.deep_view();
            r.push(piece);
            proof {
                assert(r.deep_view() =~= old_r.push(s@.subrange(start as int, i as int)));
                assert(r.deep_view() + split_from(s@, sep, i + 1, i + 1, term) =~= old_r + (seq![
                    s@.subrange(start as int, i as int),
                ] + split_from(s@, sep, i + 1, i + 1, term)));
            }
            start = i + 1;
        }
        i += 1;
    }
    if start < n || !term {
        let piece = String::from_str(s.substring_char(start, n));
        let ghost old_r = r.deep_view();
        r.push(piece);
        proof {
            assert(r.deep_view() =~= old_r.push(s@.subrange(start as int, n as int)));
            assert(r.deep_view() =~= old_r + seq![s@.subrange(start as int, n as int)]);
        }
    }
    r
}

/// Whitespace that may trail a single-line tool output.
pub open spec fn is_trailing_ws(c: char) -> bool {
    c == ' ' || c == '\t' || c == '\n' || c == '\r'
}

/// Executable check matching `is_trailing_ws`.
pub fn trailing_ws(c: char) -> (r: bool)
    ensures
        r == is_trailing_ws(c),
{
    c == ' ' || c == '\t' || c == '\n' || c == '\r'
}

/// Length of `s` once trailing whitespace is removed.
pub open spec fn trimmed_end_len(s: Seq<char>) -> int
    decreases s.len(),
{
    if s.len() == 0 {
        0
    } else if is_trailing_ws(s[s.len() - 1]) {
        trimmed_end_len(s.drop_last())
    } else {
        s.len() as int
    }
}

/// `s` with its trailing whitespace removed.
pub open spec fn trim_end(s: Seq<char>) -> Seq<char> {
    s.take(trimmed_end_len(s))
}

pub proof fn lemma_trimmed_end_len_bounds(s: Seq<char>)
    ensures
        0 <= trimmed_end_len(s) <= s.len(),
    decreases s.len(),
{
    if s.len() != 0 && is_trailing_ws(s[s.len() - 1]) {
        lemma_trimmed_end_len_bounds(s.drop_last());
    }
}

/// Index just past the last non-whitespace character of `s`.
pub fn trim_end_index(s: &str) -> (r: usize)
    ensures
        r == trimmed_end_len(s@),
        r <= s@.len(),
{
    let n: usize = s.unicode_len();
    let mut end: usize = n;
    proof {
        assert(s@.take(n as int) =~= s@);
    }
    while end > 0 && trailing_ws(s.get_char(end - 1))
        invariant
            end <= n,
            n == s@.len(),
            trimmed_end_len(s@) == trimmed_end_len(s@.take(end as int)),
        decreases end,
    {
        proof {
            let t = s@.take(end as int);
            assert(t.drop_last() =~= s@.take(end as int - 1));
            assert(trimmed_end_len(t) == trimmed_end_len(s@.take(end as int - 1)));
        }
        end = end - 1;
    }
    proof {
        let t = s@.take(end as int);
        if end > 0 {
            assert(!is_trailing_ws(t[t.len() - 1]));
            assert(trimmed_end_len(t) == end);
        } else {
            assert(trimmed_end_len(t) == 0);
        }
    }
    end
}

} // verus!
