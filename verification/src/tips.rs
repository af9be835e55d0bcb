//! Usage tips shown beside an error: the corrected command line, a caret
//! run under its offending part, and a one-line explanation.

use vstd::prelude::*;

verus! {

use vstd::string::StrSliceExecFns;
use vstd::string::StringExecFns;
use crate::util::{last_segment, last_segment_str};

/// The situations a tip is offered for.
pub enum Tip {
    MissingProjName,
    InvalidRunArg,
    InvalidBuildArg,
}

pub open spec fn spec_tip_msg(t: Tip) -> Seq<char> {
    match t {
        Tip::InvalidRunArg => "Replace with a valid argument like -dbg or leave empty"@,
        Tip::MissingProjName => "Put your project's name after `new`"@,
        Tip::InvalidBuildArg => "Replace with a valid argument like -release or -asm"@,
    }
}

pub open spec fn spec_tip_cmd(t: Tip) -> Seq<char> {
    match t {
        Tip::InvalidRunArg => "run -dbg"@,
        Tip::MissingProjName => "new your_name"@,
        Tip::InvalidBuildArg => "build -release"@,
    }
}

/// The full tip text: the corrected command on its own line, a caret run
/// under its last word, and the explanation.
pub open spec fn spec_get_tip(t: Tip) -> Seq<char> {
    let arrow = Seq::new(last_segment(spec_tip_cmd(t), ' ').len(), |i: int| '^');
    "\n    |\n    |   surtur "@ + spec_tip_cmd(t) + "\n    |              "@ + arrow
        + "\n    |              "@ + spec_tip_msg(t) + "\n    "@
}

impl Tip {
    /// The one-line explanation of the tip.
    pub fn message(&self) -> (r: &'static str)
        ensures
            r@ == spec_tip_msg(*self),
    {
        match self {
            Tip::InvalidRunArg => "Replace with a valid argument like -dbg or leave empty",
            Tip::MissingProjName => "Put your project's name after `new`",
            Tip::InvalidBuildArg => "Replace with a valid argument like -release or -asm",
        }
    }

    /// The corrected command line the tip shows.
    pub fn get_cmd(&self) -> (r: &'static str)
        ensures
            r@ == spec_tip_cmd(*self),
    {
        match self {
            Tip::InvalidRunArg => "run -dbg",
            Tip::MissingProjName => "new your_name",
            Tip::InvalidBuildArg => "build -release",
        }
    }

    /// How many caret characters underline the command: the length of its
    /// last space-separated word.
    pub fn arrow_len(&self) -> (r: i32)
        ensures
            r == last_segment(spec_tip_cmd(*self), ' ').len(),
    {
        let cmd = self.get_cmd();
        let word = last_segment_str(cmd, ' ');
        proof {
            reveal_strlit("run -dbg");
            reveal_strlit("new your_name");
            reveal_strlit("build -release");
            crate::util::lemma_last_index_of_char(cmd@, ' ');
        }
        let n = word.unicode_len();
        assert(n <= cmd@.len());
        n as i32
    }
}

/// Renders the tip: the corrected command, a caret run under its last
/// word, and the explanation, each on a guttered line.
pub fn get_tip(tip: Tip) -> (r: String)
    ensures
        r@ == spec_get_tip(tip),
{
    let cmd = tip.get_cmd();
    let word = last_segment_str(cmd, ' ');
    let n = word.unicode_len();
    let mut arrow = String::new();
    let mut i: usize = 0;
    while i < n
        invariant
            0 <= i <= n,
            arrow@ =~= Seq::new(i as nat, |j: int| '^'),
        decreases n - i,
    {
        proof {
            reveal_strlit("^");
        }
        arrow.append("^");
        proof {
            assert(arrow@ =~= Seq::new((i + 1) as nat, |j: int| '^'));
        }
        i += 1;
    }
    let mut out = String::from_str("\n    |\n    |   surtur ");
    out.append(cmd);
    out.append("\n    |              ");
    out.append(arrow.as_str());
    out.append("\n    |              ");
    out.append(tip.message());
    out.append("\n    ");
    out
}

} // verus!
