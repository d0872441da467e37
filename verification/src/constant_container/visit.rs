//! Traversal of the constants that a view holds.

use crate::constant::{Const, ConstV};
use crate::constant_container::borrowed::{fits, positions};
use crate::constant_container::indexer::{bounds, into_bounds, Indexer, Offset, Sealed};
use crate::constant_container::{ConstContainer, EntryV};
use crate::text::same_text;
use std::ops::{ControlFlow, Range};
use vstd::prelude::*;

verus! {

/// The constants that the handles are on, in order.
pub open spec fn resolved(handles: Seq<int>, owner: ConstContainer) -> Seq<Const> {
    handles.map_values(|k: int| owner.at(k))
}

/// What the constants that the handles are on show, in order.
pub open spec fn constants(handles: Seq<int>, entries: Seq<EntryV>) -> Seq<ConstV> {
    handles.map_values(|k: int| entries[k].constant)
}

/// The constants that the handles are on show what the container shows.
pub proof fn lemma_resolved_view(handles: Seq<int>, owner: ConstContainer)
    requires
        fits(handles, owner@.len()),
    ensures
        resolved(handles, owner).len() == constants(handles, owner@).len(),
        forall|i: int|
            0 <= i < resolved(handles, owner).len() ==> (#[trigger] resolved(handles, owner)[i])@
                == constants(handles, owner@)[i],
{
    assert forall|i: int| 0 <= i < handles.len() implies (#[trigger] resolved(
        handles,
        owner,
    )[i])@ == constants(handles, owner@)[i] by {
        owner.lemma_at(handles[i]);
    }
}

/// The elements whose index is at least `from` and less than `to`.
pub open spec fn window<T>(s: Seq<T>, from: int, to: int) -> Seq<T> {
    let end = if to < s.len() {
        to
    } else {
        s.len() as int
    };
    if 0 <= from < end {
        s.subrange(from, end)
    } else {
        Seq::empty()
    }
}

/// Whether `out` is what calls of `f` on the first constants of `seen` may have
/// returned, one after the other, up to the first one that breaks; `r` is what
/// it broke with.
pub open spec fn ran<B, F: FnMut(&Const) -> ControlFlow<B>>(
    f: F,
    seen: Seq<Const>,
    out: Seq<ControlFlow<B>>,
    r: Option<B>,
) -> bool {
    &&& out.len() <= seen.len()
    &&& forall|i: int| 0 <= i < out.len() ==> call_ensures(f, (&seen[i],), #[trigger] out[i])
    &&& forall|i: int| 0 <= i < out.len() - 1 ==> (#[trigger] out[i]) is Continue
    &&& match r {
        Some(b) => out.len() > 0 && out.last() == ControlFlow::<B>::Break(b),
        None => out.len() == seen.len() && (out.len() > 0 ==> out.last() is Continue),
    }
}

/// Hands the constants whose traversal index lies between the bounds to the
/// visitor, until it breaks.
fn visit_window<B, F: FnMut(&Const) -> ControlFlow<B>>(
    elements: &[usize],
    owner: &ConstContainer,
    from: usize,
    to: usize,
    visitor: F,
) -> (r: Option<B>)
    requires
        fits(positions(elements@), owner@.len()),
        forall|i: int|
            0 <= i < window(resolved(positions(elements@), *owner), from as int, to as int).len()
                ==> call_requires(
                visitor,
                (&#[trigger] window(
                    resolved(positions(elements@), *owner),
                    from as int,
                    to as int,
                )[i],),
            ),
    ensures
        exists|out: Seq<ControlFlow<B>>| #[trigger]
            ran(
                visitor,
                window(resolved(positions(elements@), *owner), from as int, to as int),
                out,
                r,
            ),
{
    let mut call = visitor;
    let ghost handles = positions(elements@);
    let ghost picked = window(resolved(handles, *owner), from as int, to as int);
    let ghost mut out: Seq<ControlFlow<B>> = Seq::empty();
    let mut i: usize = from;
    while i < to && i < elements.len()
        invariant
            from <= i,
            handles == positions(elements@),
            picked == window(resolved(handles, *owner), from as int, to as int),
            fits(handles, owner@.len()),
            call == visitor,
            out.len() == i - from,
            out.len() <= picked.len(),
            i == from || i <= to && i <= elements@.len(),
            forall|j: int|
                0 <= j < picked.len() ==> call_requires(visitor, (&#[trigger] picked[j],)),
            forall|j: int|
                0 <= j < out.len() ==> call_ensures(visitor, (&picked[j],), #[trigger] out[j]),
            forall|j: int| 0 <= j < out.len() ==> (#[trigger] out[j]) is Continue,
        decreases elements@.len() - i,
    {
        let k: usize = elements[i];
        assert(handles[i as int] == k);
        let constant: &Const = owner.get(k);
        assert(picked[i - from] == *constant);
        let res: ControlFlow<B> = call(constant);
        proof {
            out = out.push(res);
        }
        if let ControlFlow::Break(b) = res {
            assert(ran(visitor, picked, out, Some(b)));
            return Some(b);
        }
        i += 1;
    }
    assert(ran(visitor, picked, out, None));
    None
}

/// Whether `out` is what calls on the first of the constants at the positions
/// may have returned, up to the first one that breaks with `r`, where these calls
/// made of the constants in `before` those in `after`.
pub open spec fn changed<B>(
    at: Seq<int>,
    before: ConstContainer,
    after: ConstContainer,
    out: Seq<ControlFlow<B>>,
    r: Option<B>,
) -> bool {
    &&& out.len() <= at.len()
    &&& forall|i: int| 0 <= i < out.len() - 1 ==> (#[trigger] out[i]) is Continue
    &&& match r {
        Some(b) => out.len() > 0 && out.last() == ControlFlow::<B>::Break(b),
        None => out.len() == at.len() && (out.len() > 0 ==> out.last() is Continue),
    }
    &&& after@.len() == before@.len()
    &&& after.known() == before.known()
    &&& forall|k: int|
        0 <= k < before@.len() ==> (#[trigger] after@[k]).modified == before@[k].modified
    &&& forall|k: int|
        0 <= k < before@.len() && !at.take(out.len() as int).contains(k)
            ==> #[trigger] after.at(k) == before.at(k)
}

/// Hands the constants to the visitor, to be changed in place, until it breaks.
fn visit_all_mut<B, F: FnMut(&mut Const) -> ControlFlow<B>>(
    elements: &[usize],
    owner: &mut ConstContainer,
    visitor: F,
) -> (r: Option<B>)
    requires
        fits(positions(elements@), old(owner)@.len()),
        forall|m: &mut Const| #[trigger] call_requires(visitor, (m,)),
    ensures
        exists|out: Seq<ControlFlow<B>>|
            (#[trigger] changed(positions(elements@), *old(owner), *final(owner), out, r)) && (
            forall|rel: spec_fn(Const, Const, ControlFlow<B>) -> bool, i: int|
                0 <= i < out.len() && (forall|m: &mut Const, o: ControlFlow<B>| #[trigger]
                    call_ensures(visitor, (m,), o) ==> rel(*m, *final(m), o)) ==> #[trigger] rel(
                    old(owner).at(positions(elements@)[i]),
                    final(owner).at(positions(elements@)[i]),
                    out[i],
                )),
{
    let mut call = visitor;
    let ghost at = positions(elements@);
    let ghost mut out: Seq<ControlFlow<B>> = Seq::empty();
    let mut i: usize = 0;
    while i < elements.len()
        invariant
            i <= elements@.len(),
            at == positions(elements@),
            fits(at, owner@.len()),
            call == visitor,
            out.len() == i,
            forall|m: &mut Const| #[trigger] call_requires(visitor, (m,)),
            changed(at.take(i as int), *old(owner), *owner, out, None),
            forall|rel: spec_fn(Const, Const, ControlFlow<B>) -> bool, j: int|
                0 <= j < out.len() && (forall|m: &mut Const, o: ControlFlow<B>| #[trigger]
                    call_ensures(visitor, (m,), o) ==> rel(*m, *final(m), o)) ==> #[trigger] rel(
                    old(owner).at(at[j]),
                    owner.at(at[j]),
                    out[j],
                ),
        decreases elements@.len() - i,
    {
        let ghost before = *owner;
        let ghost sofar = at.take(i as int);
        let ghost next = at.take(i + 1);
        let k: usize = elements[i];
        assert(at[i as int] == k);
        assert(next =~= sofar.push(k as int));
        assert(sofar.take(out.len() as int) =~= sofar);
        assert(!sofar.contains(k as int));
        let constant: &mut Const = owner.get_mut(k);
        let res: ControlFlow<B> = call(constant);
        let ghost done = out;
        proof {
            out = out.push(res);
            assert(old(owner).at(k as int) == before.at(k as int));
            assert forall|rel: spec_fn(Const, Const, ControlFlow<B>) -> bool, j: int|
                0 <= j < out.len() && (forall|m: &mut Const, o: ControlFlow<B>| #[trigger]
                    call_ensures(visitor, (m,), o) ==> rel(
                        *m,
                        *final(m),
                        o,
                    )) implies #[trigger] rel(
                old(owner).at(at[j]),
                owner.at(at[j]),
                out[j],
            ) by {
                if j < done.len() {
                    assert(done[j] == out[j]);
                    assert(at[j] < at[i as int]);
                    assert(rel(old(owner).at(at[j]), before.at(at[j]), done[j]));
                } else {
                    assert(rel(before.at(k as int), owner.at(k as int), res));
                }
            }
            assert(next.take(out.len() as int) =~= next);
            assert(next[i as int] == k);
            assert forall|q: int| 0 <= q < owner@.len() && !next.contains(q) implies
                #[trigger] owner.at(q) == old(owner).at(q) by {
                assert(q != k);
                if sofar.contains(q) {
                    let j = sofar.index_of(q);
                    assert(next[j] == q);
                }
                assert(before.at(q) == old(owner).at(q));
            }
            assert(at.take(out.len() as int) == next);
        }
        if let ControlFlow::Break(b) = res {
            assert(changed(at, *old(owner), *owner, out, Some(b)));
            return Some(b);
        }
        i += 1;
    }
    assert(at.take(elements@.len() as int) =~= at);
    assert(changed(at, *old(owner), *owner, out, None));
    None
}

/// Utility trait to enable common constant symbol traversal pattern between
/// borrowed views.
///
/// This is implemented for both [`BorrowedContainer`] and [`BorrowedSubset`],
/// such that in-place (weaker) iteration through the constants is possible.
///
/// [`BorrowedContainer`]: `crate::BorrowedContainer`
/// [`BorrowedSubset`]: `crate::BorrowedSubset`
#[allow(private_bounds)]
pub trait Visit: Sealed {
    /// The handles that are traversed.
    spec fn shown(&self) -> Seq<int>;

    /// The elements that are traversed.
    fn elements(&self) -> (r: &[usize])
        ensures
            positions(r@) == self.shown(),
    ;

    /// Provides an immutable traversal throughout gathered constants that can
    /// be put on halt.
    fn visit<B, F: FnMut(&Const) -> ControlFlow<B>>(
        &self,
        owner: &ConstContainer,
        visitor: F,
    ) -> (r: Option<B>)
        requires
            fits(self.shown(), owner@.len()),
            forall|i: int|
                0 <= i < resolved(self.shown(), *owner).len() ==> call_requires(
                    visitor,
                    (&#[trigger] resolved(self.shown(), *owner)[i],),
                ),
        ensures
            exists|out: Seq<ControlFlow<B>>| #[trigger]
                ran(visitor, resolved(self.shown(), *owner), out, r),
    {
        let elements: &[usize] = self.elements();
        proof {
            assert(window(resolved(self.shown(), *owner), 0, elements@.len() as int) =~= resolved(
                self.shown(),
                *owner,
            ));
        }
        visit_window(elements, owner, 0, elements.len(), visitor)
    }

    /// Provides a mutable traversal throughout gathered constants that can be
    /// put on halt.
    ///
    /// Whether a constant counts as modified is not touched.
    fn visit_mut<B, F: FnMut(&mut Const) -> ControlFlow<B>>(
        &self,
        owner: &mut ConstContainer,
        visitor: F,
    ) -> (r: Option<B>)
        requires
            fits(self.shown(), old(owner)@.len()),
            forall|m: &mut Const| #[trigger] call_requires(visitor, (m,)),
        ensures
            exists|out: Seq<ControlFlow<B>>|
                (#[trigger] changed(self.shown(), *old(owner), *final(owner), out, r)) && (
                forall|rel: spec_fn(Const, Const, ControlFlow<B>) -> bool, i: int|
                    0 <= i < out.len() && (forall|m: &mut Const, o: ControlFlow<B>| #[trigger]
                        call_ensures(visitor, (m,), o) ==> rel(*m, *final(m), o)) ==> #[trigger] rel(
                        old(owner).at(self.shown()[i]),
                        final(owner).at(self.shown()[i]),
                        out[i],
                    )),
    {
        visit_all_mut(self.elements(), owner, visitor)
    }

    /// Provides an immutable traversal throughout the first `n` matched
    /// constants that can be put on halt.
    fn visit_n<B, F: FnMut(&Const) -> ControlFlow<B>>(
        &self,
        owner: &ConstContainer,
        n: usize,
        visitor: F,
    ) -> (r: Option<B>)
        requires
            fits(self.shown(), owner@.len()),
            n > 0 || resolved(self.shown(), *owner).len() == 0,
            forall|i: int|
                0 <= i < window(resolved(self.shown(), *owner), 0, n as int).len()
                    ==> call_requires(
                    visitor,
                    (&#[trigger] window(resolved(self.shown(), *owner), 0, n as int)[i],),
                ),
        ensures
            exists|out: Seq<ControlFlow<B>>| #[trigger]
                ran(visitor, window(resolved(self.shown(), *owner), 0, n as int), out, r),
    {
        visit_window(self.elements(), owner, 0, n, visitor)
    }

    /// Provided an index into the collection of symbols being traversed, this
    /// routine attempts to find it and perform some operation on it.
    fn find_indexed<T, I: Offset, F: FnMut(&Const) -> T>(
        &self,
        owner: &ConstContainer,
        idx: I,
        f: F,
    ) -> (r: Option<T>)
        requires
            fits(self.shown(), owner@.len()),
            idx.offset_spec() < resolved(self.shown(), *owner).len() ==> call_requires(
                f,
                (&resolved(self.shown(), *owner)[idx.offset_spec() as int],),
            ),
        ensures
            match r {
                Some(t) => {
                    &&& idx.offset_spec() < resolved(self.shown(), *owner).len()
                    &&& call_ensures(
                        f,
                        (&resolved(self.shown(), *owner)[idx.offset_spec() as int],),
                        t,
                    )
                },
                None => idx.offset_spec() >= resolved(self.shown(), *owner).len(),
            },
    {
        let elements: &[usize] = self.elements();
        match nth(elements, owner, idx.offset()) {
            Some(constant) => {
                let mut call = f;
                Some(call(constant))
            },
            None => None,
        }
    }

    /// Provided an identifier, this routine traverses the collection of symbols
    /// attempting to find some symbol that matches such identifier, and
    /// provides access to it.
    fn find_named<T, F: FnMut(&Const) -> T>(
        &self,
        owner: &ConstContainer,
        sym: &str,
        f: F,
    ) -> (r: Option<T>)
        requires
            fits(self.shown(), owner@.len()),
            forall|i: int|
                first_named(resolved(self.shown(), *owner), sym@, i) ==> call_requires(
                    f,
                    (&#[trigger] resolved(self.shown(), *owner)[i],),
                ),
        ensures
            match r {
                Some(t) => exists|i: int|
                    first_named(resolved(self.shown(), *owner), sym@, i) && call_ensures(
                        f,
                        (&#[trigger] resolved(self.shown(), *owner)[i],),
                        t,
                    ),
                None => forall|i: int|
                    0 <= i < resolved(self.shown(), *owner).len() ==> (#[trigger] resolved(
                        self.shown(),
                        *owner,
                    )[i])@.ident != sym@,
            },
    {
        let elements: &[usize] = self.elements();
        match named(elements, owner, sym) {
            Some(constant) => {
                let mut call = f;
                Some(call(constant))
            },
            None => None,
        }
    }

    /// Provided a range into the collection being traversed, this routine
    /// allows running a closure over the set of constants whose traversal index
    /// is within such range.
    fn select<B, I: Offset, X: Indexer<Range<I>>, F: FnMut(&Const) -> ControlFlow<B>>(
        &self,
        owner: &ConstContainer,
        range: X,
        f: F,
    ) -> (r: Option<B>)
        requires
            fits(self.shown(), owner@.len()),
            forall|i: int|
                0 <= i < picked::<I, X>(resolved(self.shown(), *owner), range).len()
                    ==> call_requires(
                    f,
                    (&#[trigger] picked::<I, X>(resolved(self.shown(), *owner), range)[i],),
                ),
        ensures
            exists|out: Seq<ControlFlow<B>>| #[trigger]
                ran(f, picked::<I, X>(resolved(self.shown(), *owner), range), out, r),
    {
        let (start, end) = into_bounds(range);
        assert(start as int == bounds::<I, X>(range).0 && end as int == bounds::<I, X>(range).1);
        let ghost seen = resolved(self.shown(), *owner);
        assert(picked::<I, X>(seen, range) == window(seen, start as int, end as int));
        let ghost part = window(seen, start as int, end as int);
        assert forall|i: int| 0 <= i < part.len() implies call_requires(
            f,
            (&#[trigger] part[i],),
        ) by {
            assert(picked::<I, X>(seen, range)[i] == part[i]);
        }
        visit_window(self.elements(), owner, start, end, f)
    }
}

/// The constants whose index is within the range.
pub open spec fn picked<I: Offset, X: Indexer<Range<I>>>(seen: Seq<Const>, range: X) -> Seq<
    Const,
> {
    window(seen, bounds::<I, X>(range).0, bounds::<I, X>(range).1)
}

/// Whether `i` is the index of the first constant with the identifier.
pub open spec fn first_named(seen: Seq<Const>, sym: Seq<char>, i: int) -> bool {
    &&& 0 <= i < seen.len()
    &&& seen[i]@.ident == sym
    &&& forall|j: int| 0 <= j < i ==> (#[trigger] seen[j])@.ident != sym
}

/// The constant with the traversal index.
fn nth<'a>(elements: &[usize], owner: &'a ConstContainer, idx: usize) -> (r: Option<&'a Const>)
    requires
        fits(positions(elements@), owner@.len()),
    ensures
        match r {
            Some(c) => idx < resolved(positions(elements@), *owner).len() && *c == resolved(
                positions(elements@),
                *owner,
            )[idx as int],
            None => idx >= resolved(positions(elements@), *owner).len(),
        },
{
    if idx < elements.len() {
        assert(positions(elements@)[idx as int] == elements@[idx as int]);
        Some(owner.get(elements[idx]))
    } else {
        None
    }
}

/// The first constant with the identifier.
fn named<'a>(elements: &[usize], owner: &'a ConstContainer, sym: &str) -> (r: Option<&'a Const>)
    requires
        fits(positions(elements@), owner@.len()),
    ensures
        match r {
            Some(c) => exists|i: int|
                first_named(resolved(positions(elements@), *owner), sym@, i) && *c
                    == #[trigger] resolved(positions(elements@), *owner)[i],
            None => forall|i: int|
                0 <= i < resolved(positions(elements@), *owner).len() ==> (#[trigger] resolved(
                    positions(elements@),
                    *owner,
                )[i])@.ident != sym@,
        },
{
    let ghost handles = positions(elements@);
    let ghost seen = resolved(handles, *owner);
    let mut i: usize = 0;
    while i < elements.len()
        invariant
            i <= elements@.len(),
            handles == positions(elements@),
            seen == resolved(handles, *owner),
            fits(handles, owner@.len()),
            forall|j: int| 0 <= j < i ==> (#[trigger] seen[j])@.ident != sym@,
        decreases elements@.len() - i,
    {
        let k: usize = elements[i];
        assert(handles[i as int] == k);
        let constant: &Const = owner.get(k);
        assert(seen[i as int] == *constant);
        if same_text(constant.ident(), sym) {
            assert(first_named(seen, sym@, i as int));
            return Some(constant);
        }
        i += 1;
    }
    None
}

} // verus!
