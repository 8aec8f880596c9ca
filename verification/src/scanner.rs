//! The scanner: it classifies what the cursor reads into tokens.

use crate::grammar::{
    find, lemma_scan_at_bounds, line_at, multi_char_rule, scan_all_from, scan_at,
    scan_string_at, single_char_token, skip_blanks, two_char_rule,
};
use crate::source_iterator::SourceIterator;
use crate::token::Token;
use core::str::Chars;
use vstd::prelude::*;
use vstd::std_specs::iter::IteratorSpec;
use vstd::string::{axiom_spec_iter, to_string_from_display_ensures_for_str};

verus! {

/// A scanner over a finite sequence of characters. It owns the one cursor
/// into it and keeps no character beyond what the cursor holds.
pub struct Scanner<'a> {
    source: SourceIterator<'a>,
}

impl<'a> Scanner<'a> {
    /// The cursor this scanner reads through.
    pub closed spec fn cursor(&self) -> SourceIterator<'a> {
        self.source
    }

    /// Every character this scanner was made over, scanned or not.
    pub open spec fn input(&self) -> Seq<char> {
        self.cursor().input()
    }

    /// How many characters of the input have been consumed.
    pub open spec fn pos(&self) -> nat {
        self.cursor().pos()
    }

    /// The cursor is well formed.
    pub open spec fn wf(&self) -> bool {
        self.cursor().wf()
    }

    /// A scanner at the start of `s`.
    pub fn from_str(s: &'static str) -> (scanner: Scanner<'static>)
        ensures
            scanner.wf(),
            scanner.input() == s@,
            scanner.pos() == 0,
    {
        broadcast use axiom_spec_iter;

        Scanner::new(s.chars())
    }

    /// A scanner at the start of what `source` has yet to hand out.
    pub fn new(source: Chars<'a>) -> (scanner: Self)
        ensures
            scanner.wf(),
            scanner.input() == source.remaining(),
            scanner.pos() == 0,
    {
        Scanner { source: SourceIterator::new(source) }
    }

    /// The number of newlines consumed so far, from 0.
    pub fn current_line(&self) -> (line: usize)
        requires
            self.wf(),
        ensures
            line == line_at(self.input(), self.pos()),
    {
        self.source.current_line()
    }

    /// Consumes blanks up to and including the first character that is none,
    /// and returns that character; at the end of the input, `None`.
    pub fn next_nonblank(&mut self) -> (c: Option<char>)
        requires
            old(self).wf(),
        ensures
            final(self).wf(),
            final(self).input() == old(self).input(),
            old(self).pos() <= final(self).pos(),
            c == if skip_blanks(old(self).input(), old(self).pos()) < old(self).input().len() {
                Some(old(self).input()[skip_blanks(old(self).input(), old(self).pos()) as int])
            } else {
                None
            },
            final(self).pos() == if skip_blanks(old(self).input(), old(self).pos()) < old(
                self,
            ).input().len() {
                skip_blanks(old(self).input(), old(self).pos()) + 1
            } else {
                old(self).input().len()
            },
    {
        self.source.next_skipping_blank()
    }

    /// The rule for a character that is a token by itself.
    pub fn scan_single_char(c: char) -> (token: Option<Token>)
        ensures
            token.deep_view() == single_char_token(c),
    {
        let token = match c {
            '(' => Token::LeftParen,
            ')' => Token::RightParen,
            '{' => Token::LeftBrace,
            '}' => Token::RightBrace,
            '[' => Token::LeftBracket,
            ']' => Token::RightBracket,
            ',' => Token::Comma,
            '.' => Token::Dot,
            '-' => Token::Minus,
            '+' => Token::Plus,
            '*' => Token::Star,
            ';' => Token::Semicolon,
            _ => {
                return None;
            },
        };
        Some(token)
    }

    /// The rule for `! = < >`: `c` has just been consumed, and an `=` right
    /// behind it is consumed with it. For any other `c` the rule does not
    /// apply and nothing is consumed.
    pub fn scan_two_chars(&mut self, c: char) -> (token: Option<Token>)
        requires
            old(self).wf(),
        ensures
            final(self).wf(),
            final(self).input() == old(self).input(),
            old(self).pos() <= final(self).pos(),
            match two_char_rule(old(self).input(), old(self).pos(), c) {
                Some(found) => token.deep_view() == found.token && final(self).pos() == found.end,
                None => token is None && final(self).pos() == old(self).pos(),
            },
    {
        let token = match c {
            '!' => if self.source.next_if_matches('=') {
                Token::BangEqual
            } else {
                Token::Bang
            },
            '=' => if self.source.next_if_matches('=') {
                Token::EqualEqual
            } else {
                Token::Equal
            },
            '<' => if self.source.next_if_matches('=') {
                Token::LessEqual
            } else {
                Token::Less
            },
            '>' => if self.source.next_if_matches('=') {
                Token::GreaterEqual
            } else {
                Token::Greater
            },
            _ => {
                return None;
            },
        };
        Some(token)
    }

    /// The string literal whose opening quote has just been consumed.
    pub fn scan_string(&mut self) -> (token: Token)
        requires
            old(self).wf(),
        ensures
            final(self).wf(),
            final(self).input() == old(self).input(),
            old(self).pos() <= final(self).pos(),
            token@ == scan_string_at(old(self).input(), old(self).pos()).token,
            final(self).pos() == scan_string_at(old(self).input(), old(self).pos()).end,
    {
        broadcast use to_string_from_display_ensures_for_str;

        let mut lexeme = String::new();
        loop
            invariant
                self.wf(),
                self.input() == old(self).input(),
                old(self).pos() <= self.pos(),
                find(self.input(), self.pos(), '"') == find(
                    old(self).input(),
                    old(self).pos(),
                    '"',
                ),
                lexeme@ == self.input().subrange(old(self).pos() as int, self.pos() as int),
            ensures
                self.pos() == find(self.input(), self.pos(), '"'),
            decreases self.input().len() - self.pos(),
        {
            let c = match self.source.peek() {
                Some(c) => *c,
                None => {
                    break ;
                },
            };
            if c == '"' {
                break ;
            }
            self.source.next();
            lexeme.push(c);
        }
        match self.source.next() {
            Some(_) => Token::StringLiteral(lexeme),
            None => Token::Invalid("unterminated string".to_string(), self.source.current_line()),
        }
    }

    /// The rule for everything else: `c` has just been consumed. A second
    /// `/` behind a `/` starts a comment, which is consumed up to but not
    /// including the next newline and yields `None`.
    pub fn scan_multi_chars(&mut self, c: char) -> (token: Option<Token>)
        requires
            old(self).wf(),
        ensures
            final(self).wf(),
            final(self).input() == old(self).input(),
            old(self).pos() <= final(self).pos(),
            token.deep_view() == multi_char_rule(old(self).input(), old(self).pos(), c).token,
            final(self).pos() == multi_char_rule(old(self).input(), old(self).pos(), c).end,
    {
        broadcast use to_string_from_display_ensures_for_str;

        match c {
            '/' => {
                if self.source.next_if_matches('/') {
                    loop
                        invariant
                            self.wf(),
                            self.input() == old(self).input(),
                            old(self).pos() <= self.pos(),
                            find(self.input(), self.pos(), '\n') == find(
                                old(self).input(),
                                old(self).pos() + 1,
                                '\n',
                            ),
                        ensures
                            self.pos() == find(self.input(), self.pos(), '\n'),
                        decreases self.input().len() - self.pos(),
                    {
                        let at_end = match self.source.peek() {
                            Some(next) => *next == '\n',
                            None => true,
                        };
                        if at_end {
                            break ;
                        }
                        self.source.next();
                    }
                    None
                } else {
                    Some(Token::Slash)
                }
            },
            '"' => Some(self.scan_string()),
            _ => Some(Token::Invalid("no match found".to_string(), self.source.current_line())),
        }
    }

    /// The next token, with the rules tried in their order of priority. At
    /// the end of the input the token is `EndOfInput`, however often it is
    /// asked for.
    pub fn scan_next(&mut self) -> (token: Token)
        requires
            old(self).wf(),
        ensures
            final(self).wf(),
            final(self).input() == old(self).input(),
            old(self).pos() <= final(self).pos(),
            token@ == scan_at(old(self).input(), old(self).pos()).token,
            final(self).pos() == scan_at(old(self).input(), old(self).pos()).end,
    {
        loop
            invariant
                self.wf(),
                self.input() == old(self).input(),
                old(self).pos() <= self.pos(),
                scan_at(self.input(), self.pos()) == scan_at(old(self).input(), old(self).pos()),
            decreases self.input().len() - self.pos(),
        {
            let c = match self.next_nonblank() {
                Some(c) => c,
                None => {
                    return Token::EndOfInput;
                },
            };
            if let Some(token) = Self::scan_single_char(c) {
                return token;
            }
            if let Some(token) = self.scan_two_chars(c) {
                return token;
            }
            if let Some(token) = self.scan_multi_chars(c) {
                return token;
            }
        }
    }

    /// The next token, or `None` at the end of the input.
    pub fn scan_token(&mut self) -> (token: Option<Token>)
        requires
            old(self).wf(),
        ensures
            final(self).wf(),
            final(self).input() == old(self).input(),
            old(self).pos() <= final(self).pos(),
            token.deep_view() == if scan_at(old(self).input(), old(self).pos()).token is EndOfInput {
                None
            } else {
                Some(scan_at(old(self).input(), old(self).pos()).token)
            },
            final(self).pos() == scan_at(old(self).input(), old(self).pos()).end,
    {
        match self.scan_next() {
            Token::EndOfInput => None,
            token => Some(token),
        }
    }

    /// Every token up to the end of the input, in order, errors included and
    /// the closing `EndOfInput` left out. The whole input is consumed.
    pub fn scan_all(&mut self) -> (tokens: Vec<Token>)
        requires
            old(self).wf(),
        ensures
            final(self).wf(),
            final(self).input() == old(self).input(),
            old(self).pos() <= final(self).pos(),
            tokens.deep_view() == scan_all_from(old(self).input(), old(self).pos()),
            final(self).pos() == final(self).input().len(),
    {
        let mut tokens: Vec<Token> = Vec::new();
        loop
            invariant
                self.wf(),
                self.input() == old(self).input(),
                tokens.deep_view() + scan_all_from(self.input(), self.pos()) == scan_all_from(
                    old(self).input(),
                    old(self).pos(),
                ),
            ensures
                self.wf(),
                self.input() == old(self).input(),
                tokens.deep_view() == scan_all_from(old(self).input(), old(self).pos()),
                self.pos() == self.input().len(),
            decreases self.input().len() - self.pos(),
        {
            proof {
                lemma_scan_at_bounds(self.input(), self.pos());
            }
            match self.scan_token() {
                Some(token) => {
                    tokens.push(token);
                },
                None => {
                    break ;
                },
            }
        }
        tokens
    }

    /// Hands the scanner over to an iterator that yields its tokens one at a
    /// time.
    pub fn into_iter(self) -> (tokens: TokenIterator<'a>)
        requires
            self.wf(),
        ensures
            tokens.wf(),
            tokens.input() == self.input(),
            tokens.pos() == self.pos(),
    {
        TokenIterator { scanner: self }
    }
}

/// The tokens of a scanner, one at a time.
pub struct TokenIterator<'a> {
    scanner: Scanner<'a>,
}

impl<'a> TokenIterator<'a> {
    /// The scanner that the tokens come from.
    pub closed spec fn scanner(&self) -> Scanner<'a> {
        self.scanner
    }

    /// Every character of the scanner's input.
    pub open spec fn input(&self) -> Seq<char> {
        self.scanner().input()
    }

    /// How many characters of the input have been consumed.
    pub open spec fn pos(&self) -> nat {
        self.scanner().pos()
    }

    /// The scanner is well formed.
    pub open spec fn wf(&self) -> bool {
        self.scanner().wf()
    }

    /// The next token, or `None` once the input is exhausted.
    pub fn next(&mut self) -> (token: Option<Token>)
        requires
            old(self).wf(),
        ensures
            final(self).wf(),
            final(self).input() == old(self).input(),
            old(self).pos() <= final(self).pos(),
            token.deep_view() == if scan_at(old(self).input(), old(self).pos()).token is EndOfInput {
                None
            } else {
                Some(scan_at(old(self).input(), old(self).pos()).token)
            },
            final(self).pos() == scan_at(old(self).input(), old(self).pos()).end,
    {
        self.scanner.scan_token()
    }
}

} // verus!
