//! The one-line status display's text.
//!
//! The status line is redrawn in place: a carriage return, then the new
//! text. When the previous text was longer than the new one would leave
//! visible, it is first blanked with spaces. What exactly goes to the
//! terminal is computed and specified here; the unverified shell only
//! prints the returned text and flushes.

use vstd::prelude::*;
use vstd::string::StringExecFns;
use vstd::string::StrSliceExecFns;

verus! {

/// `n` spaces.
pub open spec fn spaces(n: nat) -> Seq<char>
    decreases n,
{
    if n == 0 {
        Seq::<char>::empty()
    } else {
        spaces((n - 1) as nat).push(' ')
    }
}

/// The text that blanks a previous line of `n` characters: return to the
/// start of the line, then overwrite with spaces.
pub open spec fn clear_chars(n: nat) -> Seq<char> {
    seq!['\r'] + spaces(n)
}

/// The text that redraws the status line: blank the previous line first
/// if the new text would leave part of it visible, then return to the
/// start and write the new text.
pub open spec fn write_chars(prev: nat, out: Seq<char>) -> Seq<char> {
    (if out.len() < prev {
        clear_chars(prev)
    } else {
        Seq::<char>::empty()
    }) + seq!['\r'] + out
}

/// The status line's redraw state: how long the visible line is.
#[derive(Clone, Copy, PartialEq, Eq, Structural, Debug)]
pub struct Ui {
    pub line_len: usize,
}

impl Ui {
    pub fn new() -> (u: Ui)
        ensures
            u.line_len == 0,
    {
        Ui { line_len: 0 }
    }

    /// The text that blanks the currently visible line.
    fn clear(&self) -> (r: String)
        ensures
            r@ == clear_chars(self.line_len as nat),
    {
        proof {
            reveal_strlit("\r");
            reveal_strlit(" ");
        }
        let mut clear_str = String::new();
        clear_str.append("\r");
        let mut i: usize = 0;
        while i < self.line_len
            invariant
                i <= self.line_len,
                clear_str@ =~= seq!['\r'] + spaces(i as nat),
            decreases self.line_len - i,
        {
            clear_str.append(" ");
            i = i + 1;
            proof {
                reveal_strlit(" ");
                assert(clear_str@ =~= seq!['\r'] + spaces(i as nat));
            }
        }
        clear_str
    }

    /// Computes the text that redraws the status line as `output`, and
    /// remembers the new line length.
    pub fn write(&mut self, output: &str) -> (r: String)
        ensures
            r@ == write_chars(old(self).line_len as nat, output@),
            final(self).line_len == output@.len(),
    {
        proof {
            reveal_strlit("\r");
        }
        let out_len = output.unicode_len();
        let mut r = String::new();
        if out_len < self.line_len {
            let blank = self.clear();
            r.append(blank.as_str());
        }
        r.append("\r");
        r.append(output);
        self.line_len = out_len;
        proof {
            assert(r@ =~= write_chars(old(self).line_len as nat, output@));
        }
        r
    }
}

} // verus!
