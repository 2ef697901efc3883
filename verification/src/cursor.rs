//! A multi-lookahead character cursor over the source buffer.
//!
//! Lookahead is an explicit index rather than re-peeking ad hoc: `peek`
//! walks a separate lookahead position forward, `reset_peek` pulls it back
//! to the cursor, and consuming a character resets it, so lookahead can
//! never desynchronize from the characters actually consumed.

use vstd::prelude::*;

use crate::model::{in_class, line_at, run_end, CharClass};
use crate::text::{
    char_is_alphanumeric, char_is_numeric, char_is_whitespace, string_of_chars,
};

verus! {

/// Decides membership of a character in a class, matching `in_class`.
pub(crate) fn class_matches(cls: CharClass, c: char) -> (r: bool)
    ensures
        r == in_class(cls, c),
{
    match cls {
        CharClass::Whitespace => char_is_whitespace(c),
        CharClass::Numeric => char_is_numeric(c),
        CharClass::IdentContinue => char_is_alphanumeric(c) || c == '_',
        CharClass::NotNewline => c != '\n',
        CharClass::NotQuote => c != '"',
    }
}

/// A cursor over a decoded source buffer, tracking the consume position,
/// the lookahead position, and the 1-based line number at the consume
/// position.
pub struct Cursor {
    chars: Vec<char>,
    pos: usize,
    peek_pos: usize,
    line: usize,
}

impl Cursor {
    /// The source buffer.
    pub closed spec fn src(&self) -> Seq<char> {
        self.chars@
    }

    /// The consume position: everything before it has been consumed.
    pub closed spec fn cur(&self) -> int {
        self.pos as int
    }

    /// The lookahead position: the next `peek` looks here.
    pub closed spec fn peeked(&self) -> int {
        self.peek_pos as int
    }

    /// The 1-based line number at the consume position.
    pub closed spec fn cur_line(&self) -> int {
        self.line as int
    }

    /// Well-formedness: positions stay within the buffer, lookahead never
    /// trails the cursor, and the line count agrees with the consumed text.
    pub open spec fn wf(&self) -> bool {
        &&& 0 <= self.cur() <= self.src().len()
        &&& self.cur() <= self.peeked() <= self.src().len()
        &&& self.cur_line() == line_at(self.src(), self.cur())
        &&& self.src().len() < usize::MAX
    }

    /// A fresh cursor at the start of the buffer.
    pub fn new(chars: Vec<char>) -> (c: Cursor)
        requires
            chars@.len() < usize::MAX,
        ensures
            c.wf(),
            c.src() == chars@,
            c.cur() == 0,
            c.peeked() == 0,
            c.cur_line() == 1,
    {
        Cursor { chars, pos: 0, peek_pos: 0, line: 1 }
    }

    /// The consume position, for building token spans.
    pub fn position(&self) -> (p: usize)
        ensures
            p as int == self.cur(),
    {
        self.pos
    }

    /// The current line number.
    pub fn line(&self) -> (l: usize)
        ensures
            l as int == self.cur_line(),
    {
        self.line
    }

    /// Consumes and returns the next character, or `None` at end of input.
    /// Consuming resets lookahead and counts line breaks.
    pub fn advance(&mut self) -> (r: Option<char>)
        requires
            old(self).wf(),
        ensures
            final(self).wf(),
            final(self).src() == old(self).src(),
            final(self).peeked() == final(self).cur(),
            old(self).cur() < old(self).src().len() ==> r == Some(
                old(self).src()[old(self).cur()],
            ) && final(self).cur() == old(self).cur() + 1,
            old(self).cur() >= old(self).src().len() ==> r == None::<char> && final(self).cur()
                == old(self).cur(),
    {
        if self.pos < self.chars.len() {
            let c = self.chars[self.pos];
            proof {
                crate::model::lemma_count_nl_bounds(self.chars@, 0, self.pos as int);
            }
            self.pos = self.pos + 1;
            if c == '\n' {
                self.line = self.line + 1;
            }
            self.peek_pos = self.pos;
            Some(c)
        } else {
            self.peek_pos = self.pos;
            None
        }
    }

    /// Returns the character at the lookahead position and moves lookahead
    /// one further, without consuming anything.
    pub fn peek(&mut self) -> (r: Option<char>)
        requires
            old(self).wf(),
        ensures
            final(self).wf(),
            final(self).src() == old(self).src(),
            final(self).cur() == old(self).cur(),
            final(self).cur_line() == old(self).cur_line(),
            old(self).peeked() < old(self).src().len() ==> r == Some(
                old(self).src()[old(self).peeked()],
            ) && final(self).peeked() == old(self).peeked() + 1,
            old(self).peeked() >= old(self).src().len() ==> r == None::<char> && final(self).peeked()
                == old(self).peeked(),
    {
        if self.peek_pos < self.chars.len() {
            let c = self.chars[self.peek_pos];
            self.peek_pos = self.peek_pos + 1;
            Some(c)
        } else {
            None
        }
    }

    /// Forgets lookahead, so the next `peek` starts at the cursor.
    pub fn reset_peek(&mut self)
        requires
            old(self).wf(),
        ensures
            final(self).wf(),
            final(self).src() == old(self).src(),
            final(self).cur() == old(self).cur(),
            final(self).cur_line() == old(self).cur_line(),
            final(self).peeked() == final(self).cur(),
    {
        self.peek_pos = self.pos;
    }

    /// Consumes characters for as long as they stay in `cls`, never the one
    /// that leaves it; consuming nothing is valid. Returns how many were
    /// consumed.
    pub fn advance_while(&mut self, cls: CharClass) -> (n: usize)
        requires
            old(self).wf(),
            old(self).peeked() == old(self).cur(),
        ensures
            final(self).wf(),
            final(self).src() == old(self).src(),
            final(self).peeked() == final(self).cur(),
            final(self).cur() == run_end(old(self).src(), old(self).cur(), cls),
            n as int == final(self).cur() - old(self).cur(),
    {
        let ghost src = self.src();
        let ghost start = self.cur();
        let mut n: usize = 0;
        loop
            invariant
                self.wf(),
                self.src() == src,
                self.peeked() == self.cur(),
                0 <= start <= self.cur(),
                n as int == self.cur() - start,
                run_end(src, self.cur(), cls) == run_end(src, start, cls),
            ensures
                self.wf(),
                self.src() == src,
                self.peeked() == self.cur(),
                n as int == self.cur() - start,
                self.cur() == run_end(src, start, cls),
            decreases src.len() - self.cur(),
        {
            if self.pos == self.chars.len() {
                break ;
            }
            let c = self.chars[self.pos];
            if !class_matches(cls, c) {
                break ;
            }
            let ghost prev = self.cur();
            self.advance();
            proof {
                assert(run_end(src, prev, cls) == run_end(src, prev + 1, cls));
                assert(n as int + 1 <= src.len());
            }
            n = n + 1;
        }
        n
    }

    /// Copies out the text in `[start, end)`.
    pub fn text_range(&self, start: usize, end: usize) -> (s: String)
        requires
            start <= end,
            end as int <= self.src().len(),
        ensures
            s@ == self.src().subrange(start as int, end as int),
    {
        let mut v: Vec<char> = Vec::new();
        let mut i = start;
        while i < end
            invariant
                start <= i <= end,
                end as int <= self.src().len(),
                v@ == self.src().subrange(start as int, i as int),
            decreases end - i,
        {
            v.push(self.chars[i]);
            proof {
                assert(v@ =~= self.src().subrange(start as int, i as int + 1));
            }
            i = i + 1;
        }
        string_of_chars(&v)
    }
}

} // verus!
