//! Construction of the version-control invocations: the fixed argument lists
//! for reference resolution and for the status request, and the display form
//! of a command line, built only on the failure path for diagnostics.

use vstd::prelude::*;
use vstd::string::StringExecFns;
use vstd::utf8::{decode_utf8, valid_utf8};
use crate::errors::MetadataError;

verus! {

/// Relies on `core::str::from_utf8` of std: it accepts exactly the valid
/// UTF-8 byte sequences, and the accepted text reads as the decoded
/// characters of the input bytes.
#[verifier::external_body]
fn utf8_to_string(bytes: &[u8]) -> (r: Option<String>)
    ensures
        r is Some <==> valid_utf8(bytes@),
        r matches Some(s) ==> s@ == decode_utf8(bytes@),
{
    match core::str::from_utf8(bytes) {
        Ok(s) => Some(s.to_string()),
        Err(_) => None,
    }
}

/// The success test of a tool invocation: the standard output is returned as
/// text exactly when the exit status signals success and the bytes decode as
/// UTF-8; each failure is reported as its own error.
pub fn extract_stdout(success: bool, stdout: &[u8]) -> (r: Result<String, MetadataError>)
    ensures
        !success ==> r == Result::<String, MetadataError>::Err(MetadataError::CommandFailed),
        success && !valid_utf8(stdout@) ==> r == Result::<String, MetadataError>::Err(
            MetadataError::NotUtf8,
        ),
        success && valid_utf8(stdout@) ==> (r matches Ok(s) && s@ == decode_utf8(stdout@)),
{
    if !success {
        return Err(MetadataError::CommandFailed);
    }
    match utf8_to_string(stdout) {
        Some(s) => Ok(s),
        None => Err(MetadataError::NotUtf8),
    }
}

/// The arguments that resolve `HEAD` to a commit identifier; the short form
/// asks for a truncated identifier of at least 9 characters.
pub fn rev_parse_args(short: bool) -> (r: Vec<String>)
    ensures
        short ==> r.deep_view() =~= seq!["rev-parse"@, "--short=9"@, "HEAD"@],
        !short ==> r.deep_view() =~= seq!["rev-parse"@, "HEAD"@],
{
    let mut r: Vec<String> = Vec::new();
    r.push(String::from_str("rev-parse"));
    if short {
        r.push(String::from_str("--short=9"));
    }
    r.push(String::from_str("HEAD"));
    r
}

/// The arguments of the status request: untracked files, submodule changes
/// and renames excluded, machine-readable format, NUL-terminated records.
pub fn status_args() -> (r: Vec<String>)
    ensures
        r.deep_view() =~= seq![
            "status"@,
            "--untracked=no"@,
            "--ignore-submodules=all"@,
            "--no-renames"@,
            "--porcelain"@,
            "-z"@,
        ],
{
    let mut r: Vec<String> = Vec::new();
    r.push(String::from_str("status"));
    r.push(String::from_str("--untracked=no"));
    r.push(String::from_str("--ignore-submodules=all"));
    r.push(String::from_str("--no-renames"));
    r.push(String::from_str("--porcelain"));
    r.push(String::from_str("-z"));
    r
}

/// The parts joined with single spaces.
pub open spec fn join_spaced(parts: Seq<Seq<char>>) -> Seq<char>
    decreases parts.len(),
{
    if parts.len() == 0 {
        Seq::empty()
    } else if parts.len() == 1 {
        parts[0]
    } else {
        join_spaced(parts.drop_last()) + seq![' '] + parts.last()
    }
}

/// The display form of a tool invocation in the working directory `dir`,
/// for diagnostics on the failure path.
pub fn format_command_line(dir: &str, args: &Vec<String>) -> (r: String)
    ensures
        r@ == "git -C "@ + dir@ + seq![' '] + join_spaced(args.deep_view()),
{
    let ghost dv = args.deep_view();
    let mut s = String::from_str("git -C ");
    s.append(dir);
    s.append(" ");
    proof {
        reveal_strlit(" ");
        assert(" "@ =~= seq![' ']);
        assert(dv.take(0) =~= Seq::<Seq<char>>::empty());
        assert(s@ =~= "git -C "@ + dir@ + seq![' '] + join_spaced(dv.take(0)));
    }
    let n = args.len();
    let mut k: usize = 0;
    while k < n
        invariant
            k <= n,
            n == args@.len(),
            dv == args.deep_view(),
            dv.len() == n,
            s@ == "git -C "@ + dir@ + seq![' '] + join_spaced(dv.take(k as int)),
        decreases n - k,
    {
        if k > 0 {
            s.append(" ");
            proof {
                reveal_strlit(" ");
                assert(" "@ =~= seq![' ']);
            }
        }
        s.append(args[k].as_str());
        proof {
            let t = dv.take(k as int + 1);
            assert(t.drop_last() =~= dv.take(k as int));
            assert(t.last() == dv[k as int]);
            if k == 0 {
                assert(join_spaced(t) == dv[0]);
                assert(join_spaced(dv.take(0)) == Seq::<char>::empty());
                assert(s@ =~= "git -C "@ + dir@ + seq![' '] + join_spaced(t));
            } else {
                assert(join_spaced(t) == join_spaced(dv.take(k as int)) + seq![' ']
                    + dv[k as int]);
                assert(s@ =~= "git -C "@ + dir@ + seq![' '] + join_spaced(t));
            }
        }
        k += 1;
    }
    proof {
        assert(dv.take(n as int) =~= dv);
    }
    s
}

} // verus!
