//! Rendering of a positioned error report: the failing command line with
//! a caret run under the offending argument and a description beneath it.
//! The caller prints the text and ends the run with a failure status.

use vstd::prelude::*;

verus! {

use vstd::string::StringExecFns;

/// `n` repetitions of the space character.
pub open spec fn spec_spaces(n: nat) -> Seq<char> {
    Seq::new(n, |i: int| ' ')
}

/// `n` repetitions of the caret character.
pub open spec fn spec_carets(n: nat) -> Seq<char> {
    Seq::new(n, |i: int| '^')
}

/// The full report: the message, the command, a caret run of `err_len`
/// characters indented by `err_pos`, and the description at the same
/// indent.
pub open spec fn spec_throw(
    msg: Seq<char>,
    desc: Seq<char>,
    command: Seq<char>,
    err_pos: nat,
    err_len: nat,
) -> Seq<char> {
    "Error: "@ + msg + "\n\n"@ + command + "\n"@ + spec_spaces(err_pos) + spec_carets(err_len)
        + "\n\n"@ + spec_spaces(err_pos) + desc
}

fn push_spaces(out: &mut String, n: usize)
    ensures
        final(out)@ == old(out)@ + spec_spaces(n as nat),
{
    let ghost base = out@;
    let mut i: usize = 0;
    while i < n
        invariant
            0 <= i <= n,
            out@ =~= base + spec_spaces(i as nat),
        decreases n - i,
    {
        proof {
            reveal_strlit(" ");
        }
        out.append(" ");
        proof {
            assert(out@ =~= base + spec_spaces((i + 1) as nat));
        }
        i += 1;
    }
}

fn push_carets(out: &mut String, n: usize)
    ensures
        final(out)@ == old(out)@ + spec_carets(n as nat),
{
    let ghost base = out@;
    let mut i: usize = 0;
    while i < n
        invariant
            0 <= i <= n,
            out@ =~= base + spec_carets(i as nat),
        decreases n - i,
    {
        proof {
            reveal_strlit("^");
        }
        out.append("^");
        proof {
            assert(out@ =~= base + spec_carets((i + 1) as nat));
        }
        i += 1;
    }
}

/// Builds the positioned report for a failing command: message, the
/// command itself, a caret run under the part at `err_pos` of length
/// `err_len`, and the description. The caller prints it and ends the run.
pub fn throw(msg: &str, desc: &str, command: &str, err_pos: usize, err_len: usize) -> (r: String)
    ensures
        r@ == spec_throw(msg@, desc@, command@, err_pos as nat, err_len as nat),
{
    let mut out = String::from_str("Error: ");
    out.append(msg);
    out.append("\n\n");
    out.append(command);
    out.append("\n");
    push_spaces(&mut out, err_pos);
    push_carets(&mut out, err_len);
    out.append("\n\n");
    push_spaces(&mut out, err_pos);
    out.append(desc);
    out
}

} // verus!
