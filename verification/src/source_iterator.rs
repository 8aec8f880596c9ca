//! The character cursor: the one place that knows where in the input the
//! scanner stands and how many lines it has passed.

use crate::grammar::{holds, line_at, skip_blanks};
use crate::lookahead::{buffered, peek_at, peek_at_cursor, peek_offset, take_next, unconsumed};
use core::iter::Fuse;
use core::str::Chars;
use peekmore::PeekMoreIterator;
use vstd::prelude::*;
use vstd::std_specs::iter::IteratorSpec;

verus! {

/// A cursor over a finite sequence of characters, with lookahead of up to two
/// characters and a line counter.
///
/// Its state is the whole input and a position in it: the characters before
/// the position have been consumed, those from it on are still to come. The
/// line counter is the number of newlines among the consumed characters,
/// held at `usize::MAX` once it gets there, so lines count from 0. Whichever
/// operation consumes a newline, it is counted once, in `next`.
pub struct SourceIterator<'a> {
    source: PeekMoreIterator<Fuse<Chars<'a>>>,
    line: usize,
    input: Ghost<Seq<char>>,
    pos: Ghost<nat>,
}

impl<'a> SourceIterator<'a> {
    /// Every character this cursor was made over, consumed or not.
    pub closed spec fn input(&self) -> Seq<char> {
        self.input@
    }

    /// How many characters of the input have been consumed.
    pub closed spec fn pos(&self) -> nat {
        self.pos@
    }

    /// The value of the line counter.
    pub closed spec fn line(&self) -> usize {
        self.line
    }

    /// The lookahead buffer holds what lies from the position on, and looks
    /// at the front of it.
    pub closed spec fn buffer_in_step(&self) -> bool {
        &&& unconsumed(self.source) == self.input@.skip(self.pos@ as int)
        &&& peek_offset(self.source) == 0
    }

    /// The position lies within the input, the buffer agrees with it, and the
    /// line counter is the number of newlines consumed.
    pub open spec fn wf(&self) -> bool {
        &&& self.pos() <= self.input().len()
        &&& self.buffer_in_step()
        &&& self.line() == line_at(self.input(), self.pos())
    }

    /// A cursor at the start of what `source` has yet to hand out.
    pub fn new(source: Chars<'a>) -> (cursor: Self)
        ensures
            cursor.wf(),
            cursor.input() == source.remaining(),
            cursor.pos() == 0,
    {
        let source = buffered(source);
        let ghost input = unconsumed(source);
        assert(input.skip(0) == input);
        SourceIterator { source, line: 0, input: Ghost(input), pos: Ghost(0) }
    }

    /// The line counter.
    pub fn current_line(&self) -> (line: usize)
        requires
            self.wf(),
        ensures
            line == line_at(self.input(), self.pos()),
    {
        self.line
    }

    /// Consumes and returns the next character, or returns `None` at the end
    /// of the input, however often it is asked.
    pub fn next(&mut self) -> (c: Option<char>)
        requires
            old(self).wf(),
        ensures
            final(self).wf(),
            final(self).input() == old(self).input(),
            old(self).pos() <= final(self).pos(),
            c == if old(self).pos() < old(self).input().len() {
                Some(old(self).input()[old(self).pos() as int])
            } else {
                None
            },
            final(self).pos() == if old(self).pos() < old(self).input().len() {
                old(self).pos() + 1
            } else {
                old(self).pos()
            },
    {
        let c = take_next(&mut self.source);
        if c.is_some() {
            proof {
                assert(self.input@.skip(self.pos@ as int).drop_first() == self.input@.skip(
                    self.pos@ as int + 1,
                ));
                self.pos@ = self.pos@ + 1;
            }
            if c == Some('\n') {
                self.line = self.line.saturating_add(1);
            }
        }
        c
    }

    /// The next character, which stays unconsumed.
    pub fn peek(&mut self) -> (c: Option<&char>)
        requires
            old(self).wf(),
        ensures
            final(self).wf(),
            final(self).input() == old(self).input(),
            old(self).pos() <= final(self).pos(),
            final(self).pos() == old(self).pos(),
            c == if old(self).pos() < old(self).input().len() {
                Some(&old(self).input()[old(self).pos() as int])
            } else {
                None
            },
    {
        peek_at_cursor(&mut self.source)
    }

    /// The character after the next one; neither is consumed.
    pub fn peek_ahead(&mut self) -> (c: Option<&char>)
        requires
            old(self).wf(),
        ensures
            final(self).wf(),
            final(self).input() == old(self).input(),
            old(self).pos() <= final(self).pos(),
            final(self).pos() == old(self).pos(),
            c == if old(self).pos() + 1 < old(self).input().len() {
                Some(&old(self).input()[old(self).pos() as int + 1])
            } else {
                None
            },
    {
        peek_at(&mut self.source, 1)
    }

    /// Consumes the next character if it is `c`, and says whether it did.
    /// Nothing is consumed otherwise.
    pub fn next_if_matches(&mut self, c: char) -> (matched: bool)
        requires
            old(self).wf(),
        ensures
            final(self).wf(),
            final(self).input() == old(self).input(),
            old(self).pos() <= final(self).pos(),
            matched == holds(old(self).input(), old(self).pos(), c),
            final(self).pos() == if matched {
                old(self).pos() + 1
            } else {
                old(self).pos()
            },
    {
        let matched = match self.peek() {
            Some(next) => *next == c,
            None => false,
        };
        if matched {
            self.next();
        }
        matched
    }

    /// Consumes blanks up to and including the first character that is none,
    /// and returns that character; at the end of the input, `None`.
    pub fn next_skipping_blank(&mut self) -> (c: Option<char>)
        requires
            old(self).wf(),
        ensures
            final(self).wf(),
            final(self).input() == old(self).input(),
            old(self).pos() <= final(self).pos(),
            c == if skip_blanks(old(self).input(), old(self).pos()) < old(self).input().len() {
                Some(old(self).input()[skip_blanks(old(self).input(), old(self).pos()) as int])
            } else {
                None
            },
            final(self).pos() == if skip_blanks(old(self).input(), old(self).pos()) < old(
                self,
            ).input().len() {
                skip_blanks(old(self).input(), old(self).pos()) + 1
            } else {
                old(self).input().len()
            },
    {
        loop
            invariant
                self.wf(),
                self.input() == old(self).input(),
                old(self).pos() <= self.pos(),
                skip_blanks(self.input(), self.pos()) == skip_blanks(
                    old(self).input(),
                    old(self).pos(),
                ),
            decreases self.input().len() - self.pos(),
        {
            match self.next() {
                Some(c) => {
                    if !(c == ' ' || c == '\r' || c == '\t' || c == '\n') {
                        return Some(c);
                    }
                },
                None => {
                    return None;
                },
            }
        }
    }
}

} // verus!
