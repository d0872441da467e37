//! Ranges that pick a part of a view.

use std::ops::Range;
use vstd::prelude::*;

verus! {

/// Keeps others from implementing the traits that it bounds.
pub(crate) trait Sealed {

}

/// Integers that stand for an offset into a view.
pub trait Offset: Copy {
    spec fn offset_spec(self) -> usize;

    fn offset(self) -> (r: usize)
        ensures
            r == self.offset_spec(),
    ;
}

impl Offset for u8 {
    open spec fn offset_spec(self) -> usize {
        self as usize
    }

    fn offset(self) -> usize {
        self as usize
    }
}

impl Offset for u16 {
    open spec fn offset_spec(self) -> usize {
        self as usize
    }

    fn offset(self) -> usize {
        self as usize
    }
}

impl Offset for usize {
    open spec fn offset_spec(self) -> usize {
        self
    }

    fn offset(self) -> usize {
        self
    }
}

/// Defines shared behavior between types capable of indexing into a borrowed
/// view.
///
/// This is sealed because the underlying container type is not implemented in
/// this crate, and only allows a limited range of types to index into it.
#[allow(private_bounds)]
pub trait Indexer<T>: Sealed + Sized {
    /// What the index stands for.
    spec fn eval_spec(self) -> T;

    fn eval(self) -> (r: T)
        ensures
            r == self.eval_spec(),
    ;
}

impl<I: Offset> Sealed for Range<I> {

}

impl<I: Offset> Sealed for &Range<I> {

}

impl<I: Offset> Sealed for &mut Range<I> {

}

impl<I: Offset> Indexer<Range<I>> for Range<I> {
    open spec fn eval_spec(self) -> Range<I> {
        self
    }

    fn eval(self) -> Range<I> {
        self
    }
}

impl<I: Offset> Indexer<Range<I>> for &Range<I> {
    open spec fn eval_spec(self) -> Range<I> {
        *self
    }

    fn eval(self) -> Range<I> {
        Range { start: self.start, end: self.end }
    }
}

impl<I: Offset> Indexer<Range<I>> for &mut Range<I> {
    open spec fn eval_spec(self) -> Range<I> {
        *self
    }

    fn eval(self) -> Range<I> {
        Range { start: self.start, end: self.end }
    }
}

/// The bounds that a range stands for: the first is in, the second is out.
pub open spec fn bounds<I: Offset, X: Indexer<Range<I>>>(range: X) -> (int, int) {
    (
        range.eval_spec().start.offset_spec() as int,
        range.eval_spec().end.offset_spec() as int,
    )
}

/// The bounds that a range stands for.
pub(crate) fn into_bounds<I: Offset, X: Indexer<Range<I>>>(range: X) -> (r: (usize, usize))
    ensures
        (r.0 as int, r.1 as int) == bounds::<I, X>(range),
{
    let picked: Range<I> = range.eval();
    (picked.start.offset(), picked.end.offset())
}

} // verus!
