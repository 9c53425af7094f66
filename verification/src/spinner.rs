//! The rotating four-symbol indicator shown while running indefinitely.

use vstd::prelude::*;

verus! {

/// The fixed four-symbol cycle, by position.
pub open spec fn spin_symbol(i: int) -> char {
    if i == 0 {
        '|'
    } else if i == 1 {
        '/'
    } else if i == 2 {
        '-'
    } else {
        '\\'
    }
}

/// A cursor into the four-symbol cycle. Each call of [`Spinner::next_char`]
/// advances one position and wraps after the last symbol.
#[derive(Clone, Copy, PartialEq, Eq, Structural, Debug)]
pub struct Spinner {
    count: usize,
}

impl Spinner {
    /// The cursor stays inside the cycle.
    pub closed spec fn wf(&self) -> bool {
        self.count < 4
    }

    /// The current position in the cycle.
    pub closed spec fn position(&self) -> int {
        self.count as int
    }

    pub fn new() -> (s: Spinner)
        ensures
            s.wf(),
            s.position() == 0,
    {
        Spinner { count: 0 }
    }

    /// Advances one position, wrapping after the last symbol, and returns
    /// the symbol at the new position.
    pub fn next_char(&mut self) -> (c: char)
        requires
            old(self).wf(),
        ensures
            final(self).wf(),
            final(self).position() == (old(self).position() + 1) % 4,
            c == spin_symbol(final(self).position()),
    {
        let next: usize = if self.count == 3 {
            0
        } else {
            self.count + 1
        };
        self.count = next;
        if next == 0 {
            '|'
        } else if next == 1 {
            '/'
        } else if next == 2 {
            '-'
        } else {
            '\\'
        }
    }

    /// As [`Spinner::next_char`], but as a one-character string for the
    /// status line.
    pub fn next_char_str(&mut self) -> (r: &'static str)
        requires
            old(self).wf(),
        ensures
            final(self).wf(),
            final(self).position() == (old(self).position() + 1) % 4,
            r@ =~= seq![spin_symbol(final(self).position())],
    {
        proof {
            reveal_strlit("|");
            reveal_strlit("/");
            reveal_strlit("-");
            reveal_strlit("\\");
        }
        let c = self.next_char();
        if c == '|' {
            "|"
        } else if c == '/' {
            "/"
        } else if c == '-' {
            "-"
        } else {
            "\\"
        }
    }
}

} // verus!
