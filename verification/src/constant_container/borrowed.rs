//! Views into the constants of a container.

use crate::constant_container::indexer::{bounds, into_bounds, Indexer, Offset, Sealed};
use crate::constant_container::visit::Visit;
use crate::constant_container::{ConstContainer, EntryV};
use std::ops::Range;
use vstd::prelude::*;

verus! {

/// The positions of constants, as numbers.
pub open spec fn positions(elements: Seq<usize>) -> Seq<int> {
    elements.map_values(|k: usize| k as int)
}

/// Whether the handles are all on constants below `n`, and come in the order of
/// the constants.
pub open spec fn fits(handles: Seq<int>, n: nat) -> bool {
    &&& forall|i: int| 0 <= i < handles.len() ==> 0 <= #[trigger] handles[i] < n
    &&& forall|i: int, j: int|
        0 <= i < j < handles.len() ==> #[trigger] handles[i] < #[trigger] handles[j]
}

/// Represents a borrowed view into multiple segments of a [`ConstContainer`] as
/// a single, contiguous container of its own.
///
/// It holds handles on the constants, by their positions there. Of every constant
/// that it has held it remembers whether that was deprecated when it entered.
#[derive(Debug)]
pub struct BorrowedContainer {
    source: Vec<usize>,
    init_state: Vec<bool>,
    entered: Vec<Option<bool>>,
}

/// What the view remembers of each constant after those that are found entered.
pub open spec fn noted(
    entered: Seq<Option<bool>>,
    found: Seq<int>,
    entries: Seq<EntryV>,
) -> Seq<Option<bool>> {
    Seq::new(
        entries.len(),
        |k: int|
            if entered[k] is Some {
                entered[k]
            } else if found.contains(k) {
                Some(entries[k].constant.deprecated)
            } else {
                None
            },
    )
}

/// For each of the handles, the state with which its constant entered.
pub open spec fn inits(handles: Seq<int>, entered: Seq<Option<bool>>) -> Seq<bool> {
    handles.map_values(|k: int| entered[k]->0)
}

/// What a view remembers that has held no constant of `n`.
pub open spec fn unknown(n: nat) -> Seq<Option<bool>> {
    Seq::new(n, |k: int| None)
}

impl BorrowedContainer {
    /// The positions of the constants in view.
    pub closed spec fn handles(self) -> Seq<int> {
        positions(self.source@)
    }

    /// For each handle, whether its constant was deprecated when it entered.
    pub closed spec fn init(self) -> Seq<bool> {
        self.init_state@
    }

    /// For each constant that the view has held, whether it was deprecated when
    /// it entered.
    pub closed spec fn entered(self) -> Seq<Option<bool>> {
        self.entered@
    }

    /// Whether this is a view into a container of `n` constants.
    pub open spec fn wf(self, n: nat) -> bool {
        &&& fits(self.handles(), n)
        &&& self.entered().len() == n
        &&& self.init() == inits(self.handles(), self.entered())
        &&& forall|i: int|
            0 <= i < self.handles().len() ==> self.entered()[#[trigger] self.handles()[i]] is Some
    }

    /// An empty view into a container of `n` constants, with room for all of them.
    pub(crate) fn with_capacity(n: usize) -> (r: Self)
        ensures
            r.handles() == Seq::<int>::empty(),
            r.init() == Seq::<bool>::empty(),
            r.entered() == unknown(n as nat),
            r.wf(n as nat),
    {
        let mut entered: Vec<Option<bool>> = Vec::with_capacity(n);
        let mut k: usize = 0;
        while k < n
            invariant
                k <= n,
                entered@ == unknown(k as nat),
            decreases n - k,
        {
            entered.push(None);
            assert(entered@ =~= unknown((k + 1) as nat));
            k += 1;
        }
        let r = BorrowedContainer {
            source: Vec::with_capacity(n),
            init_state: Vec::with_capacity(n),
            entered,
        };
        assert(r.handles() =~= Seq::empty());
        assert(r.init() =~= Seq::empty());
        assert(r.init() =~= inits(r.handles(), r.entered()));
        r
    }

    /// Takes in the constants at the given positions, in place of those that were
    /// in view.
    pub(crate) fn refill(&mut self, owner: &ConstContainer, at: &Vec<usize>)
        requires
            old(self).wf(owner@.len()),
            fits(positions(at@), owner@.len()),
        ensures
            final(self).handles() == positions(at@),
            final(self).entered() == noted(old(self).entered(), positions(at@), owner@),
            final(self).wf(owner@.len()),
    {
        let ghost found = positions(at@);
        let ghost before = self.entered@;
        self.source.clear();
        self.init_state.clear();
        let mut i: usize = 0;
        assert(self.entered@ =~= noted(before, found.take(0), owner@));
        while i < at.len()
            invariant
                i <= at.len(),
                found == positions(at@),
                fits(found, owner@.len()),
                before.len() == owner@.len(),
                self.source@ == at@.take(i as int),
                self.entered@ == noted(before, found.take(i as int), owner@),
                self.init_state@ == inits(found.take(i as int), self.entered@),
            decreases at.len() - i,
        {
            let k: usize = at[i];
            assert(found[i as int] == k);
            let ghost held = found.take(i as int);
            let ghost next = found.take(i + 1);
            assert(next =~= held.push(k as int));
            let ghost was = self.entered@;
            assert(!held.contains(k as int));
            let state: bool = match self.entered[k] {
                Some(state) => state,
                None => owner.get(k).is_deprecated(),
            };
            self.entered.set(k, Some(state));
            self.source.push(k);
            self.init_state.push(state);
            assert(self.source@ =~= at@.take(i + 1));
            assert forall|q: int| 0 <= q < owner@.len() implies #[trigger] self.entered@[q]
                == noted(before, next, owner@)[q] by {
                assert(was[q] == noted(before, held, owner@)[q]);
                if next.contains(q) && q != k {
                    let m = next.index_of(q);
                    assert(held[m] == q);
                } else if held.contains(q) {
                    let m = held.index_of(q);
                    assert(next[m] == q);
                } else if q == k {
                    assert(next[i as int] == q);
                }
            }
            assert(self.entered@ =~= noted(before, next, owner@));
            assert forall|m: int| 0 <= m < next.len() implies #[trigger] self.init_state@[m]
                == self.entered@[next[m]]->0 by {
                if m < i {
                    assert(held[m] == next[m]);
                    assert(next[m] < k);
                }
            }
            assert(self.init_state@ =~= inits(next, self.entered@));
            i += 1;
        }
        assert(at@.take(at@.len() as int) =~= at@);
        assert(found.take(at@.len() as int) =~= found);
        assert forall|m: int| 0 <= m < found.len() implies self.entered@[
        #[trigger] found[m]] is Some by {
            assert(found.contains(found[m]));
        }
    }

    /// Takes the constants that the view has held as if they entered anew, in the
    /// states that they had before they were modified.
    pub(crate) fn rebase(&mut self, owner: &ConstContainer)
        requires
            old(self).wf(owner@.len()),
        ensures
            final(self).handles() == old(self).handles(),
            final(self).entered() == rebased(old(self).entered(), owner@),
            final(self).wf(owner@.len()),
    {
        let ghost before = self.entered@;
        let mut k: usize = 0;
        while k < owner.len()
            invariant
                k <= owner@.len(),
                self.source == old(self).source,
                self.init_state == old(self).init_state,
                before.len() == owner@.len(),
                self.entered@.len() == owner@.len(),
                forall|q: int|
                    0 <= q < owner@.len() ==> #[trigger] self.entered@[q] == (if q < k {
                        rebased(before, owner@)[q]
                    } else {
                        before[q]
                    }),
            decreases owner@.len() - k,
        {
            if self.entered[k].is_some() {
                self.entered.set(k, Some(owner.get(k).is_deprecated() != owner.is_modified(k)));
            }
            k += 1;
        }
        assert(self.entered@ =~= rebased(before, owner@));
        let mut i: usize = 0;
        while i < self.source.len()
            invariant
                i <= self.source@.len(),
                self.source == old(self).source,
                fits(self.handles(), owner@.len()),
                self.handles() == old(self).handles(),
                self.entered@ == rebased(before, owner@),
                before.len() == owner@.len(),
                self.init_state@.len() == self.source@.len(),
                forall|m: int|
                    0 <= m < self.handles().len() ==> before[#[trigger] self.handles()[m]] is Some,
                forall|m: int|
                    0 <= m < i ==> #[trigger] self.init_state@[m] == self.entered@[
                        self.handles()[m]
                    ]->0,
            decreases self.source@.len() - i,
        {
            assert(self.handles()[i as int] == self.source@[i as int]);
            let k: usize = self.source[i];
            if let Some(state) = self.entered[k] {
                self.init_state.set(i, state);
            }
            i += 1;
        }
        assert(self.init() =~= inits(self.handles(), self.entered()));
    }

    /// Whether no constants are in view.
    pub fn is_empty(&self) -> (r: bool)
        ensures
            r == (self.handles().len() == 0),
    {
        self.len() == 0
    }

    /// How many constants are in view.
    pub fn len(&self) -> (r: usize)
        ensures
            r == self.handles().len(),
    {
        self.source.len()
    }
}

/// What the view remembers of the constants after they entered anew: the states
/// that they had before they were modified.
pub open spec fn rebased(entered: Seq<Option<bool>>, entries: Seq<EntryV>) -> Seq<Option<bool>> {
    Seq::new(
        entries.len(),
        |k: int|
            if entered[k] is Some {
                Some(entries[k].constant.deprecated != entries[k].modified)
            } else {
                None
            },
    )
}

/// The constants after those in view were marked deprecated, or not: they are
/// modified if that is not the state with which they entered the view, and the
/// others stay as they are.
pub open spec fn marked(
    entries: Seq<EntryV>,
    handles: Seq<int>,
    init: Seq<bool>,
    yes: bool,
) -> Seq<EntryV> {
    Seq::new(
        entries.len(),
        |k: int|
            if handles.contains(k) {
                EntryV {
                    constant: entries[k].constant.marked(yes),
                    modified: init[handles.index_of(k)] != yes,
                }
            } else {
                entries[k]
            },
    )
}

/// No constant is in view twice.
proof fn lemma_unique(handles: Seq<int>, n: nat, j: int)
    requires
        fits(handles, n),
        0 <= j < handles.len(),
    ensures
        handles.contains(handles[j]),
        handles.index_of(handles[j]) == j,
{
    let k = handles.index_of(handles[j]);
    assert(handles[k] == handles[j]);
}

/// Marks the constants that the handles are on deprecated, or not.
fn mark_all(source: &[usize], init_state: &[bool], owner: &mut ConstContainer, yes: bool)
    requires
        fits(positions(source@), old(owner)@.len()),
        source@.len() == init_state@.len(),
    ensures
        final(owner)@ == marked(old(owner)@, positions(source@), init_state@, yes),
        final(owner).known() == old(owner).known(),
{
    let ghost handles = positions(source@);
    let ghost entries = owner@;
    let mut i: usize = 0;
    assert(owner@ =~= marked(entries, handles.take(0), init_state@, yes));
    while i < source.len()
        invariant
            i <= source@.len(),
            source@.len() == init_state@.len(),
            handles == positions(source@),
            fits(handles, entries.len()),
            owner@ == marked(entries, handles.take(i as int), init_state@, yes),
            owner.known() == old(owner).known(),
        decreases source@.len() - i,
    {
        let ghost before = handles.take(i as int);
        let ghost after = handles.take(i + 1);
        let ghost was = owner@;
        let k: usize = source[i];
        assert(handles[i as int] == k);
        assert(after =~= before.push(k as int));
        assert(!before.contains(k as int));
        owner.mark(k, yes, init_state[i] != yes);
        proof {
            lemma_unique_prefix(handles, entries.len(), i + 1);
            lemma_unique(after, entries.len(), i as int);
            lemma_unique_prefix(handles, entries.len(), i as int);
        }
        assert forall|q: int| 0 <= q < entries.len() implies #[trigger] owner@[q] == marked(
            entries,
            after,
            init_state@,
            yes,
        )[q] by {
            if q != k {
                assert(was[q] == marked(entries, before, init_state@, yes)[q]);
                if before.contains(q) {
                    let m = before.index_of(q);
                    assert(after[m] == q);
                    lemma_unique(after, entries.len(), m);
                    lemma_unique(before, entries.len(), m);
                } else if after.contains(q) {
                    let m = after.index_of(q);
                    assert(before[m] == q);
                }
            }
        }
        assert(owner@ =~= marked(entries, after, init_state@, yes));
        i += 1;
    }
    assert(handles.take(source@.len() as int) =~= handles);
}

proof fn lemma_unique_prefix(handles: Seq<int>, n: nat, i: int)
    requires
        fits(handles, n),
        0 <= i <= handles.len(),
    ensures
        fits(handles.take(i), n),
{
    assert forall|a: int, b: int| 0 <= a < b < i implies #[trigger] handles.take(i)[a]
        < #[trigger] handles.take(i)[b] by {
        assert(handles[a] < handles[b]);
    }
}

impl BorrowedContainer {
    /// Bulk deprecate all constants gathered from the underlying container.
    ///
    /// This will mark all constants as having been modified, so long as their
    /// state differs from that with which they entered the view.
    pub fn deprecate(&self, owner: &mut ConstContainer)
        requires
            self.wf(old(owner)@.len()),
        ensures
            final(owner)@ == marked(old(owner)@, self.handles(), self.init(), true),
            final(owner).known() == old(owner).known(),
    {
        mark_all(self.source.as_slice(), self.init_state.as_slice(), owner, true);
    }

    /// Bulk undeprecate all constants gathered from the underlying container.
    ///
    /// This will mark all constants as having been modified, so long as their
    /// state differs from that with which they entered the view.
    pub fn undeprecate(&self, owner: &mut ConstContainer)
        requires
            self.wf(old(owner)@.len()),
        ensures
            final(owner)@ == marked(old(owner)@, self.handles(), self.init(), false),
            final(owner).known() == old(owner).known(),
    {
        mark_all(self.source.as_slice(), self.init_state.as_slice(), owner, false);
    }
}

/// Represents a subset of a borrowed view (i.e. a subset of a
/// [`BorrowedContainer`].)
///
/// This is produced as part of [`select()`], which further yields a contiguous
/// subset of the superset of disjoint references into the source container. The
/// hierarchy, in decreasing levels of ownership/dependence, goes like this:
/// [`ConstContainer`] -> [`BorrowedContainer`] -> [`BorrowedSubset`].
///
/// [`select()`]: `BorrowedContainer::select()`
#[derive(Debug)]
pub struct BorrowedSubset<'a> {
    source: &'a [usize],
    init_state: &'a [bool],
}

impl<'a> BorrowedSubset<'a> {
    pub closed spec fn handles(self) -> Seq<int> {
        positions(self.source@)
    }

    /// For each element, whether its constant was deprecated when it entered the
    /// view.
    pub closed spec fn init(self) -> Seq<bool> {
        self.init_state@
    }

    /// Whether this is a part of a view into a container of `n` constants.
    pub open spec fn wf(self, n: nat) -> bool {
        &&& self.init().len() == self.handles().len()
        &&& fits(self.handles(), n)
    }

    fn new(source: &'a [usize], init_state: &'a [bool]) -> (r: Self)
        ensures
            r.handles() == positions(source@),
            r.init() == init_state@,
    {
        BorrowedSubset { source, init_state }
    }

    /// Bulk deprecate all constants gathered from the underlying container.
    ///
    /// This will mark all constants as having been modified, so long as their
    /// state differs from that with which they entered the view.
    pub fn deprecate(&self, owner: &mut ConstContainer)
        requires
            self.wf(old(owner)@.len()),
        ensures
            final(owner)@ == marked(old(owner)@, self.handles(), self.init(), true),
            final(owner).known() == old(owner).known(),
    {
        mark_all(self.source, self.init_state, owner, true);
    }

    /// Bulk undeprecate all constants gathered from the underlying container.
    ///
    /// This will mark all constants as having been modified, so long as their
    /// state differs from that with which they entered the view.
    pub fn undeprecate(&self, owner: &mut ConstContainer)
        requires
            self.wf(old(owner)@.len()),
        ensures
            final(owner)@ == marked(old(owner)@, self.handles(), self.init(), false),
            final(owner).known() == old(owner).known(),
    {
        mark_all(self.source, self.init_state, owner, false);
    }
}

impl BorrowedContainer {
    /// Yields a borrowed subset over the borrowed view, only valid for the
    /// lifetime of the latter.
    ///
    /// This is useful when requiring multiple subsequent levels of detail into
    /// the same overarching container, without giving up on any of the
    /// intermediate, borrowed views.
    pub fn select<I: Offset, X: Indexer<Range<I>>>(&self, range: X) -> (r: BorrowedSubset<'_>)
        requires
            self.init().len() == self.handles().len(),
            bounds::<I, X>(range).0 <= bounds::<I, X>(range).1 <= self.handles().len(),
        ensures
            r.handles() == self.handles().subrange(
                bounds::<I, X>(range).0,
                bounds::<I, X>(range).1,
            ),
            r.init() == self.init().subrange(bounds::<I, X>(range).0, bounds::<I, X>(range).1),
            forall|n: nat| self.wf(n) ==> #[trigger] r.wf(n),
    {
        let (start, end) = into_bounds(range);
        let source: &[usize] = vstd::slice::slice_subrange(
            self.source.as_slice(),
            start,
            end,
        );
        let init_state: &[bool] = vstd::slice::slice_subrange(
            self.init_state.as_slice(),
            start,
            end,
        );
        let r = BorrowedSubset::new(source, init_state);
        assert(r.handles() =~= self.handles().subrange(start as int, end as int));
        assert forall|n: nat| self.wf(n) implies #[trigger] r.wf(n) by {
            assert forall|i: int, j: int|
                0 <= i < j < r.handles().len() implies #[trigger] r.handles()[i]
                < #[trigger] r.handles()[j] by {
                assert(self.handles()[i + start] < self.handles()[j + start]);
            }
            assert forall|i: int| 0 <= i < r.handles().len() implies 0 <= #[trigger] r.handles()[i]
                < n by {
                assert(0 <= self.handles()[i + start] < n);
            }
        }
        r
    }
}

impl Sealed for BorrowedContainer {

}

impl<'a> Sealed for BorrowedSubset<'a> {

}

impl Visit for BorrowedContainer {
    open spec fn shown(&self) -> Seq<int> {
        self.handles()
    }

    fn elements(&self) -> &[usize] {
        self.source.as_slice()
    }
}

impl<'a> Visit for BorrowedSubset<'a> {
    open spec fn shown(&self) -> Seq<int> {
        self.handles()
    }

    fn elements(&self) -> &[usize] {
        self.source
    }
}

/// Bulk marking reaches the constants in view and no others: each takes the
/// state, and is modified if that is not the state with which it entered.
pub proof fn law_marked(
    entries: Seq<EntryV>,
    handles: Seq<int>,
    init: Seq<bool>,
    yes: bool,
    k: int,
)
    requires
        fits(handles, entries.len()),
        init.len() == handles.len(),
        0 <= k < entries.len(),
    ensures
        !handles.contains(k) ==> marked(entries, handles, init, yes)[k] == entries[k],
        forall|m: int|
            0 <= m < handles.len() && #[trigger] handles[m] == k ==> marked(
                entries,
                handles,
                init,
                yes,
            )[k] == (EntryV {
                constant: entries[k].constant.marked(yes),
                modified: init[m] != yes,
            }),
{
    assert forall|m: int| 0 <= m < handles.len() && #[trigger] handles[m] == k implies marked(
        entries,
        handles,
        init,
        yes,
    )[k] == (EntryV { constant: entries[k].constant.marked(yes), modified: init[m] != yes }) by {
        lemma_unique(handles, entries.len(), m);
    }
}

/// Of several bulk markings of one view the last one decides. So deprecating
/// twice is deprecating once, and undeprecating undoes it.
pub proof fn law_marked_again(
    entries: Seq<EntryV>,
    handles: Seq<int>,
    init: Seq<bool>,
    first: bool,
    last: bool,
)
    ensures
        marked(marked(entries, handles, init, first), handles, init, last) == marked(
            entries,
            handles,
            init,
            last,
        ),
{
    assert(marked(marked(entries, handles, init, first), handles, init, last) =~= marked(
        entries,
        handles,
        init,
        last,
    ));
}

} // verus!
