//! The lexical rules, stated over a whole input and a position in it.
//!
//! An input is a `Seq<char>`; a position is an index into it, at most its
//! length. Every function here is a mathematical definition: the cursor and
//! the scanner are proved to compute them.

use crate::token::TokenView;
use vstd::prelude::*;

verus! {

/// Whitespace that is skipped between tokens.
pub open spec fn is_blank(c: char) -> bool {
    c == ' ' || c == '\r' || c == '\t' || c == '\n'
}

/// The number of newline characters among the first `pos` of `input`.
pub open spec fn newlines(input: Seq<char>, pos: nat) -> nat
    decreases pos,
{
    if pos == 0 || pos > input.len() {
        0
    } else {
        newlines(input, (pos - 1) as nat) + if input[pos - 1] == '\n' {
            1nat
        } else {
            0nat
        }
    }
}

/// The line counter of a cursor that has consumed the first `pos` characters
/// of `input`: the newlines among them, held at `usize::MAX` once reached.
pub open spec fn line_at(input: Seq<char>, pos: nat) -> usize {
    if newlines(input, pos) >= usize::MAX {
        usize::MAX
    } else {
        newlines(input, pos) as usize
    }
}

/// The first position at or after `pos` that holds no blank, or the length of
/// `input` if there is none.
pub open spec fn skip_blanks(input: Seq<char>, pos: nat) -> nat
    decreases input.len() - pos,
{
    if pos >= input.len() {
        input.len()
    } else if is_blank(input[pos as int]) {
        skip_blanks(input, pos + 1)
    } else {
        pos
    }
}

/// The first position at or after `pos` that holds `stop`, or the length of
/// `input` if there is none.
pub open spec fn find(input: Seq<char>, pos: nat, stop: char) -> nat
    decreases input.len() - pos,
{
    if pos >= input.len() {
        input.len()
    } else if input[pos as int] == stop {
        pos
    } else {
        find(input, pos + 1, stop)
    }
}

/// The token of a character that is a token by itself whatever follows it.
pub open spec fn single_char_token(c: char) -> Option<TokenView> {
    if c == '(' {
        Some(TokenView::LeftParen)
    } else if c == ')' {
        Some(TokenView::RightParen)
    } else if c == '{' {
        Some(TokenView::LeftBrace)
    } else if c == '}' {
        Some(TokenView::RightBrace)
    } else if c == '[' {
        Some(TokenView::LeftBracket)
    } else if c == ']' {
        Some(TokenView::RightBracket)
    } else if c == ',' {
        Some(TokenView::Comma)
    } else if c == '.' {
        Some(TokenView::Dot)
    } else if c == '-' {
        Some(TokenView::Minus)
    } else if c == '+' {
        Some(TokenView::Plus)
    } else if c == '*' {
        Some(TokenView::Star)
    } else if c == ';' {
        Some(TokenView::Semicolon)
    } else {
        None
    }
}

/// The token of a character that may be followed by `=` to form a longer
/// operator; `doubled` says whether it is.
pub open spec fn two_char_token(c: char, doubled: bool) -> Option<TokenView> {
    if c == '!' {
        Some(if doubled { TokenView::BangEqual } else { TokenView::Bang })
    } else if c == '=' {
        Some(if doubled { TokenView::EqualEqual } else { TokenView::Equal })
    } else if c == '<' {
        Some(if doubled { TokenView::LessEqual } else { TokenView::Less })
    } else if c == '>' {
        Some(if doubled { TokenView::GreaterEqual } else { TokenView::Greater })
    } else {
        None
    }
}

/// Whether `input` holds `c` at `pos`.
pub open spec fn holds(input: Seq<char>, pos: nat, c: char) -> bool {
    pos < input.len() && input[pos as int] == c
}

/// The message of the error for a character that starts no token.
pub open spec fn no_match_message() -> Seq<char> {
    "no match found"@
}

/// The message of the error for a string that the input ends in.
pub open spec fn unterminated_message() -> Seq<char> {
    "unterminated string"@
}

/// A token and the position after the last character consumed for it.
pub struct Scan {
    pub token: TokenView,
    pub end: nat,
}

/// What a rule makes of a character: the token it yields, or `None` where it
/// only discards a comment, and the position after the last character it
/// consumed.
pub struct Match {
    pub token: Option<TokenView>,
    pub end: nat,
}

/// The string literal whose opening quote stands just before `pos`: its
/// contents run up to the next quote, which is consumed. Where there is no
/// next quote, the rest of the input is consumed and the result is an error
/// that carries the line reached at the end of the input.
pub open spec fn scan_string_at(input: Seq<char>, pos: nat) -> Scan {
    let close = find(input, pos, '"');
    if close < input.len() {
        Scan {
            token: TokenView::StringLiteral(input.subrange(pos as int, close as int)),
            end: close + 1,
        }
    } else {
        Scan {
            token: TokenView::Invalid(unterminated_message(), line_at(input, input.len())),
            end: input.len(),
        }
    }
}

/// The rule for `! = < >`, each of which an `=` right behind it turns into a
/// longer operator. `c` is the character just before `after`; the rule does
/// not apply to any other character.
pub open spec fn two_char_rule(input: Seq<char>, after: nat, c: char) -> Option<Match> {
    if two_char_token(c, false) is Some {
        if holds(input, after, '=') {
            Some(Match { token: two_char_token(c, true), end: after + 1 })
        } else {
            Some(Match { token: two_char_token(c, false), end: after })
        }
    } else {
        None
    }
}

/// The rule for everything else. `c` is the character just before `after`.
/// A `/` with a second `/` behind it starts a comment, which runs up to but
/// not including the next newline and yields no token; a `/` alone is a
/// token. A `"` starts a string literal. Any other character is an error,
/// with the line on which it was found.
pub open spec fn multi_char_rule(input: Seq<char>, after: nat, c: char) -> Match {
    if c == '/' {
        if holds(input, after, '/') {
            Match { token: None, end: find(input, after + 1, '\n') }
        } else {
            Match { token: Some(TokenView::Slash), end: after }
        }
    } else if c == '"' {
        Match {
            token: Some(scan_string_at(input, after).token),
            end: scan_string_at(input, after).end,
        }
    } else {
        Match {
            token: Some(TokenView::Invalid(no_match_message(), line_at(input, after))),
            end: after,
        }
    }
}

/// The rules in their order of priority; the first that applies wins.
pub open spec fn classify(input: Seq<char>, after: nat, c: char) -> Match {
    if single_char_token(c) is Some {
        Match { token: single_char_token(c), end: after }
    } else if two_char_rule(input, after, c) is Some {
        two_char_rule(input, after, c)->0
    } else {
        multi_char_rule(input, after, c)
    }
}

/// The next token at or after `pos`. Blanks are skipped, the first character
/// that is none is classified, and where that only discards a comment,
/// scanning starts over behind it. At the end of the input the token is
/// `EndOfInput`.
pub open spec fn scan_at(input: Seq<char>, pos: nat) -> Scan
    decreases input.len() - pos,
    via scan_at_decreases
{
    let start = skip_blanks(input, pos);
    if start >= input.len() {
        Scan { token: TokenView::EndOfInput, end: input.len() }
    } else {
        let found = classify(input, start + 1, input[start as int]);
        match found.token {
            Some(token) => Scan { token, end: found.end },
            None => scan_at(input, found.end),
        }
    }
}

#[via_fn]
proof fn scan_at_decreases(input: Seq<char>, pos: nat) {
    let start = skip_blanks(input, pos);
    if start < input.len() {
        lemma_skip_blanks_bounds(input, pos);
        lemma_classify_bounds(input, start + 1, input[start as int]);
    }
}

/// A rule never ends before the position it starts from, nor beyond the
/// input.
pub proof fn lemma_classify_bounds(input: Seq<char>, after: nat, c: char)
    requires
        after <= input.len(),
    ensures
        after <= classify(input, after, c).end <= input.len(),
{
    lemma_find_bounds(input, after + 1, '\n');
    lemma_find_bounds(input, after, '"');
}

/// Every token from `pos` to the end of the input, in order, without the
/// closing `EndOfInput`. Errors are tokens like the others: scanning goes on
/// behind them.
pub open spec fn scan_all_from(input: Seq<char>, pos: nat) -> Seq<TokenView>
    decreases input.len() - pos,
    via scan_all_from_decreases
{
    let next = scan_at(input, pos);
    if next.token is EndOfInput {
        Seq::empty()
    } else {
        seq![next.token] + scan_all_from(input, next.end)
    }
}

#[via_fn]
proof fn scan_all_from_decreases(input: Seq<char>, pos: nat) {
    if pos <= input.len() {
        lemma_scan_at_bounds(input, pos);
    }
}

/// A scan ends within the input, at its very end where the token is
/// `EndOfInput`, and otherwise behind at least one character.
pub proof fn lemma_scan_at_bounds(input: Seq<char>, pos: nat)
    requires
        pos <= input.len(),
    ensures
        pos <= scan_at(input, pos).end <= input.len(),
        scan_at(input, pos).token is EndOfInput ==> scan_at(input, pos).end == input.len(),
        !(scan_at(input, pos).token is EndOfInput) ==> pos < scan_at(input, pos).end,
    decreases input.len() - pos,
{
    let start = skip_blanks(input, pos);
    lemma_skip_blanks_bounds(input, pos);
    if start < input.len() {
        let found = classify(input, start + 1, input[start as int]);
        lemma_classify_bounds(input, start + 1, input[start as int]);
        if found.token is None {
            lemma_scan_at_bounds(input, found.end);
        }
    }
}

/// `skip_blanks` stops at or after the position it starts from and within
/// the input.
pub proof fn lemma_skip_blanks_bounds(input: Seq<char>, pos: nat)
    requires
        pos <= input.len(),
    ensures
        pos <= skip_blanks(input, pos) <= input.len(),
    decreases input.len() - pos,
{
    if pos < input.len() && is_blank(input[pos as int]) {
        lemma_skip_blanks_bounds(input, pos + 1);
    }
}

/// `find` stops at or after the position it starts from and, where that is
/// within the input, within the input.
pub proof fn lemma_find_bounds(input: Seq<char>, pos: nat, stop: char)
    ensures
        pos <= input.len() ==> pos <= find(input, pos, stop) <= input.len(),
        pos > input.len() ==> find(input, pos, stop) == input.len(),
    decreases input.len() - pos,
{
    if pos < input.len() && input[pos as int] != stop {
        lemma_find_bounds(input, pos + 1, stop);
    }
}

} // verus!
