//! What holds of the lexical rules for every input.

use crate::grammar::{
    find, is_blank, lemma_scan_at_bounds, line_at, newlines, scan_all_from, scan_at,
    single_char_token, skip_blanks, two_char_token,
};
use crate::token::TokenView;
use vstd::prelude::*;

verus! {

/// The token of a punctuation mark that stands alone: one of the twelve
/// marks that are always a token by themselves, of `! = < >`, or `/`.
pub open spec fn punctuation_token(c: char) -> Option<TokenView> {
    if single_char_token(c) is Some {
        single_char_token(c)
    } else if two_char_token(c, false) is Some {
        two_char_token(c, false)
    } else if c == '/' {
        Some(TokenView::Slash)
    } else {
        None
    }
}

/// Whether the mark `c` and the mark `next` right behind it are read as one
/// lexeme: an operator that ends in `=`, or the start of a comment.
pub open spec fn merges(c: char, next: char) -> bool {
    (two_char_token(c, false) is Some && next == '=') || (c == '/' && next == '/')
}

/// An input made of punctuation marks alone, none of which merges with the
/// one behind it.
pub open spec fn separate_marks(input: Seq<char>) -> bool {
    &&& forall|i: int| 0 <= i < input.len() ==> punctuation_token(#[trigger] input[i]) is Some
    &&& forall|i: int| 0 <= i < input.len() - 1 ==> !merges(#[trigger] input[i], input[i + 1])
}

/// Scanning an input of separate punctuation marks from `pos` yields one
/// token for each mark from there on, in order.
proof fn lemma_marks_from(input: Seq<char>, pos: nat)
    requires
        separate_marks(input),
        pos <= input.len(),
    ensures
        scan_all_from(input, pos) == Seq::new(
            (input.len() - pos) as nat,
            |i: int| punctuation_token(input[pos + i])->0,
        ),
    decreases input.len() - pos,
{
    let rest = Seq::new(
        (input.len() - pos) as nat,
        |i: int| punctuation_token(input[pos + i])->0,
    );
    if pos < input.len() {
        let c = input[pos as int];
        lemma_marks_from(input, pos + 1);
        let tail = Seq::new(
            (input.len() - (pos + 1)) as nat,
            |i: int| punctuation_token(input[pos + 1 + i])->0,
        );
        assert(seq![punctuation_token(c)->0] + tail =~= rest);
    } else {
        assert(scan_all_from(input, pos) =~= rest);
    }
}

/// An input that consists of punctuation marks alone, none of which merges
/// with the one behind it (no `=` right behind one of `! = < >`, no `/` right
/// behind a `/`), scans to exactly one token for each character, in the
/// order of the input, and none of them is an error.
pub proof fn lemma_one_token_for_each_mark(input: Seq<char>)
    requires
        separate_marks(input),
    ensures
        scan_all_from(input, 0) == Seq::new(
            input.len(),
            |i: int| punctuation_token(input[i])->0,
        ),
        scan_all_from(input, 0).len() == input.len(),
        forall|i: int|
            0 <= i < input.len() ==> !(#[trigger] scan_all_from(input, 0)[i] is Invalid),
{
    lemma_marks_from(input, 0);
}

/// Once the end of the input has been reported, it is reported again from
/// where that scan ended, and nothing more is consumed: the scanner stays at
/// the end, and what is left to scan is empty.
pub proof fn lemma_end_of_input_is_final(input: Seq<char>, pos: nat)
    requires
        pos <= input.len(),
        scan_at(input, pos).token is EndOfInput,
    ensures
        scan_at(input, scan_at(input, pos).end) == scan_at(input, pos),
        scan_at(input, pos).end == input.len(),
        scan_all_from(input, pos) == Seq::<TokenView>::empty(),
        scan_all_from(input, scan_at(input, pos).end) == Seq::<TokenView>::empty(),
{
    lemma_scan_at_bounds(input, pos);
}

/// The newlines among the first `to` characters are those among the first
/// `from` and those among the characters from `from` up to `to`.
pub proof fn lemma_newlines_add_up(input: Seq<char>, from: nat, to: nat)
    requires
        from <= to <= input.len(),
    ensures
        newlines(input, to) == newlines(input, from) + newlines(
            input.subrange(from as int, to as int),
            (to - from) as nat,
        ),
    decreases to - from,
{
    let part = input.subrange(from as int, to as int);
    if from < to {
        let shorter = input.subrange(from as int, to - 1);
        lemma_newlines_add_up(input, from, (to - 1) as nat);
        lemma_newlines_of_prefix(part, shorter, (to - 1 - from) as nat);
    }
}

/// The newlines among the first `n` characters depend on those characters
/// alone.
proof fn lemma_newlines_of_prefix(a: Seq<char>, b: Seq<char>, n: nat)
    requires
        n <= a.len(),
        n <= b.len(),
        forall|i: int| 0 <= i < n ==> a[i] == b[i],
    ensures
        newlines(a, n) == newlines(b, n),
    decreases n,
{
    if n > 0 {
        lemma_newlines_of_prefix(a, b, (n - 1) as nat);
    }
}

/// The line counter never goes down as the position moves on, and it goes up
/// by exactly the number of newlines passed, until it is held at
/// `usize::MAX`.
pub proof fn lemma_line_counts_newlines_passed(input: Seq<char>, from: nat, to: nat)
    requires
        from <= to <= input.len(),
    ensures
        line_at(input, from) <= line_at(input, to),
        line_at(input, to) == if line_at(input, from) + newlines(
            input.subrange(from as int, to as int),
            (to - from) as nat,
        ) >= usize::MAX {
            usize::MAX
        } else {
            (line_at(input, from) + newlines(
                input.subrange(from as int, to as int),
                (to - from) as nat,
            )) as usize
        },
{
    lemma_newlines_add_up(input, from, to);
}

/// A search stops at the first position that holds the character looked for:
/// no position before it does, and it does unless the input ran out.
pub proof fn lemma_find_is_first(input: Seq<char>, pos: nat, stop: char)
    requires
        pos <= input.len(),
    ensures
        pos <= find(input, pos, stop) <= input.len(),
        forall|i: int| pos <= i < find(input, pos, stop) ==> #[trigger] input[i] != stop,
        find(input, pos, stop) < input.len() ==> input[find(input, pos, stop) as int] == stop,
    decreases input.len() - pos,
{
    if pos < input.len() && input[pos as int] != stop {
        lemma_find_is_first(input, pos + 1, stop);
    }
}

/// Skipping blanks stops at the first position that holds none: every
/// position before it holds a blank, and it holds none unless the input ran
/// out.
pub proof fn lemma_skip_blanks_is_first(input: Seq<char>, pos: nat)
    requires
        pos <= input.len(),
    ensures
        pos <= skip_blanks(input, pos) <= input.len(),
        forall|i: int|
            pos <= i < skip_blanks(input, pos) ==> is_blank(#[trigger] input[i]),
        skip_blanks(input, pos) < input.len() ==> !is_blank(
            input[skip_blanks(input, pos) as int],
        ),
    decreases input.len() - pos,
{
    if pos < input.len() && is_blank(input[pos as int]) {
        lemma_skip_blanks_is_first(input, pos + 1);
    }
}

} // verus!
