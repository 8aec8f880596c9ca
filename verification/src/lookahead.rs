//! The lookahead buffer that the cursor reads through: `peekmore`'s
//! multi-peek adapter over a fused `Chars`. Nothing in this file is proved;
//! each contract restates what the adapter's source shows.

use core::iter::Fuse;
use core::str::Chars;
use peekmore::PeekMore;
use peekmore::PeekMoreIterator;
use vstd::prelude::*;
use vstd::std_specs::iter::IteratorSpec;

verus! {

/// `core::iter::Fuse`, carried through as an opaque value.
#[verifier::external_type_specification]
#[verifier::external_body]
#[verifier::reject_recursive_types(I)]
pub struct ExFuse<I>(Fuse<I>);

/// `peekmore::PeekMoreIterator`, opaque but for the two names below.
#[verifier::external_type_specification]
#[verifier::external_body]
#[verifier::reject_recursive_types(I)]
pub struct ExPeekMoreIterator<I: Iterator>(PeekMoreIterator<I>);

/// The characters that the adapter has not handed out yet, in order: those it
/// holds in its queue followed by those still in the iterator beneath it.
pub uninterp spec fn unconsumed(source: PeekMoreIterator<Fuse<Chars<'_>>>) -> Seq<char>;

/// The adapter's peek cursor: how far past the first unconsumed character
/// `peek` looks.
pub uninterp spec fn peek_offset(source: PeekMoreIterator<Fuse<Chars<'_>>>) -> nat;

/// `Iterator::fuse` followed by `PeekMore::peekmore`: the adapter starts with
/// an empty queue and its cursor at 0, so what it will hand out is what the
/// iterator beneath it would have.
#[verifier::external_body]
pub(crate) fn buffered<'a>(chars: Chars<'a>) -> (source: PeekMoreIterator<Fuse<Chars<'a>>>)
    ensures
        unconsumed(source) == chars.remaining(),
        peek_offset(source) == 0,
{
    chars.fuse().peekmore()
}

/// `PeekMoreIterator::peek`: the character under the peek cursor, if there is
/// one. Nothing is consumed and the cursor stays where it is.
#[verifier::external_body]
pub(crate) fn peek_at_cursor<'s>(source: &'s mut PeekMoreIterator<Fuse<Chars<'_>>>) -> (c: Option<
    &'s char,
>)
    ensures
        unconsumed(*final(source)) == unconsumed(*old(source)),
        peek_offset(*final(source)) == peek_offset(*old(source)),
        c == if peek_offset(*old(source)) < unconsumed(*old(source)).len() {
            Some(&unconsumed(*old(source))[peek_offset(*old(source)) as int])
        } else {
            None
        },
{
    source.peek()
}

/// `PeekMoreIterator::peek_nth`: the character `n` places past the first
/// unconsumed one, if there is one. Nothing is consumed and the peek cursor
/// is not moved. The adapter queues `n + 1` entries to answer, so `n` is kept
/// small.
#[verifier::external_body]
pub(crate) fn peek_at<'s>(source: &'s mut PeekMoreIterator<Fuse<Chars<'_>>>, n: usize) -> (c: Option<
    &'s char,
>)
    requires
        n <= 1,
    ensures
        unconsumed(*final(source)) == unconsumed(*old(source)),
        peek_offset(*final(source)) == peek_offset(*old(source)),
        c == if n < unconsumed(*old(source)).len() {
            Some(&unconsumed(*old(source))[n as int])
        } else {
            None
        },
{
    source.peek_nth(n)
}

/// `Iterator::next` of `PeekMoreIterator`: hands out the first unconsumed
/// character, if there is one, and moves the peek cursor one step back unless
/// it is at 0 already.
#[verifier::external_body]
pub(crate) fn take_next(source: &mut PeekMoreIterator<Fuse<Chars<'_>>>) -> (c: Option<char>)
    ensures
        c == if unconsumed(*old(source)).len() > 0 {
            Some(unconsumed(*old(source))[0])
        } else {
            None
        },
        unconsumed(*final(source)) == if unconsumed(*old(source)).len() > 0 {
            unconsumed(*old(source)).drop_first()
        } else {
            unconsumed(*old(source))
        },
        peek_offset(*final(source)) == if peek_offset(*old(source)) > 0 {
            (peek_offset(*old(source)) - 1) as nat
        } else {
            0nat
        },
{
    source.next()
}

} // verus!
