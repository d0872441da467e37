//! The constants of the whole codebase.

use crate::constant::{Const, ConstV, LineColumn};
use crate::constant_container::borrowed::{
    inits, law_marked, marked, noted, positions, unknown, BorrowedContainer,
};
use crate::errors::FilterError;
use crate::pattern::{finds_all, is_match, language, regex_language, selects, ReCache};
use vstd::prelude::*;

pub mod borrowed;
pub mod indexer;
pub mod visit;

verus! {

/// A constant, and whether it differs from what it was when it was loaded.
#[verifier::ext_equal]
pub struct EntryV {
    pub constant: ConstV,
    pub modified: bool,
}

/// The constants that were found in a codebase, in the order in which they were
/// found, and the regexes that have been used to filter them.
pub struct ConstContainer {
    inner: Vec<(Const, bool)>,
    re_cache: ReCache,
}

impl View for ConstContainer {
    type V = Seq<EntryV>;

    closed spec fn view(&self) -> Seq<EntryV> {
        Seq::new(
            self.inner@.len(),
            |i: int| EntryV { constant: self.inner@[i].0@, modified: self.inner@[i].1 },
        )
    }
}

/// The positions below `upto` whose constants `re` finds a match in, in order.
pub open spec fn matching(entries: Seq<EntryV>, re: Seq<char>, upto: int) -> Seq<int>
    decreases upto,
{
    if upto <= 0 {
        Seq::empty()
    } else {
        let before = matching(entries, re, upto - 1);
        if selects(re, entries[upto - 1].constant.ident) {
            before.push(upto - 1)
        } else {
            before
        }
    }
}

impl ConstContainer {
    /// The regexes that have been compiled so far.
    pub closed spec fn known(self) -> Set<Seq<char>> {
        self.re_cache.known()
    }

    /// The constant at a position.
    pub closed spec fn at(self, k: int) -> Const {
        self.inner@[k].0
    }

    /// A container of unmodified constants.
    pub fn new(inner: Vec<Const>) -> (r: Self)
        ensures
            r@ == inner@.map_values(|c: Const| EntryV { constant: c@, modified: false }),
            r.known() == Set::<Seq<char>>::empty(),
    {
        let mut entries: Vec<(Const, bool)> = Vec::new();
        let ghost given = inner@;
        for constant in iter: inner
            invariant
                iter.seq() == given,
                entries.len() == iter.index(),
                forall|j: int|
                    0 <= j < entries.len() ==> (#[trigger] entries@[j]).0@ == given[j]@
                        && !entries@[j].1,
        {
            entries.push((constant, false));
        }
        let r = ConstContainer { inner: entries, re_cache: ReCache::new() };
        assert(r@ =~= inner@.map_values(|c: Const| EntryV { constant: c@, modified: false }));
        r
    }

    /// How many constants there are.
    pub fn len(&self) -> (r: usize)
        ensures
            r == self@.len(),
    {
        self.inner.len()
    }

    /// The constant at a position.
    pub fn get(&self, k: usize) -> (r: &Const)
        requires
            k < self@.len(),
        ensures
            *r == self.at(k as int),
            r@ == self@[k as int].constant,
    {
        &self.inner[k].0
    }

    /// The constant at a position, to be changed in place.
    pub(crate) fn get_mut(&mut self, k: usize) -> (r: &mut Const)
        requires
            k < old(self)@.len(),
        ensures
            *r == old(self).at(k as int),
            final(self)@ =~= old(self)@.update(
                k as int,
                EntryV { constant: (*final(r))@, modified: old(self)@[k as int].modified },
            ),
            forall|j: int|
                0 <= j < old(self)@.len() ==> #[trigger] final(self).at(j) == (if j == k {
                    *final(r)
                } else {
                    old(self).at(j)
                }),
            final(self).known() == old(self).known(),
    {
        let entry: &mut (Const, bool) = &mut self.inner[k];
        &mut entry.0
    }

    /// A container shows what its constants show.
    pub proof fn lemma_at(self, k: int)
        requires
            0 <= k < self@.len(),
        ensures
            self.at(k)@ == self@[k].constant,
    {
    }

    /// Whether the constant at a position differs from what it was when it was
    /// loaded.
    pub fn is_modified(&self, k: usize) -> (r: bool)
        requires
            k < self@.len(),
        ensures
            r == self@[k as int].modified,
    {
        self.inner[k].1
    }

    /// Marks the constant at a position deprecated, or not, and records whether
    /// that is a change.
    pub(crate) fn mark(&mut self, k: usize, yes: bool, modified: bool)
        requires
            k < old(self)@.len(),
        ensures
            final(self)@ == old(self)@.update(
                k as int,
                EntryV { constant: old(self)@[k as int].constant.marked(yes), modified },
            ),
            final(self).known() == old(self).known(),
    {
        let entry: &mut (Const, bool) = &mut self.inner[k];
        entry.0.deprecate(yes);
        entry.1 = modified;
        assert(final(self)@ =~= old(self)@.update(
            k as int,
            EntryV { constant: old(self)@[k as int].constant.marked(yes), modified },
        ));
    }

    /// Takes note of where the constant at a position starts in its file, and of
    /// whether that file says that it is deprecated.
    pub(crate) fn settle(&mut self, k: usize, span: LineColumn, on_disk: bool)
        requires
            k < old(self)@.len(),
        ensures
            final(self)@ == old(self)@.update(
                k as int,
                EntryV {
                    constant: ConstV { span, ..old(self)@[k as int].constant },
                    modified: old(self)@[k as int].constant.deprecated != on_disk,
                },
            ),
            final(self).known() == old(self).known(),
    {
        let entry: &mut (Const, bool) = &mut self.inner[k];
        entry.0.move_to(span);
        entry.1 = entry.0.is_deprecated() != on_disk;
        assert(final(self)@ =~= old(self)@.update(
            k as int,
            EntryV {
                constant: ConstV { span, ..old(self)@[k as int].constant },
                modified: old(self)@[k as int].constant.deprecated != on_disk,
            },
        ));
    }

    /// Returns an empty borrowed container that can be reused across calls to
    /// [`filter_with()`].
    ///
    /// It has room for a handle on every constant, so that filtering into it
    /// never needs to reallocate.
    ///
    /// [`filter_with()`]: `ConstContainer::filter_with()`
    pub fn borrowed(&self) -> (r: BorrowedContainer)
        ensures
            r.handles() == Seq::<int>::empty(),
            r.init() == Seq::<bool>::empty(),
            r.entered() == unknown(self@.len()),
            r.wf(self@.len()),
    {
        BorrowedContainer::with_capacity(self.inner.len())
    }

    /// A view of every constant.
    pub(crate) fn view_all(&self) -> (r: BorrowedContainer)
        ensures
            r.handles() == Seq::new(self@.len(), |i: int| i),
            r.entered() == self@.map_values(|e: EntryV| Some(e.constant.deprecated)),
            r.wf(self@.len()),
    {
        let mut all: Vec<usize> = Vec::new();
        let mut i: usize = 0;
        while i < self.inner.len()
            invariant
                i <= self.inner.len(),
                all@ == Seq::new(i as nat, |j: int| j as usize),
            decreases self.inner.len() - i,
        {
            all.push(i);
            i += 1;
        }
        assert(positions(all@) =~= Seq::new(self@.len(), |i: int| i));
        let mut r = BorrowedContainer::with_capacity(self.inner.len());
        r.refill(self, &all);
        assert forall|k: int| 0 <= k < self@.len() implies #[trigger] positions(all@).contains(
            k,
        ) by {
            assert(positions(all@)[k] == k);
        }
        assert(r.entered() =~= self@.map_values(|e: EntryV| Some(e.constant.deprecated)));
        r
    }

    /// The positions of the constants whose identifiers the regex matches.
    fn sift(&self, re: &str) -> (r: Vec<usize>)
        requires
            self.known().contains(re@),
        ensures
            positions(r@) == matching(self@, re@, self@.len() as int),
    {
        let mut at: Vec<usize> = Vec::new();
        assert(positions(at@) =~= matching(self@, re@, 0));
        if let Some(compiled) = self.re_cache.get(re) {
            let mut i: usize = 0;
            while i < self.inner.len()
                invariant
                    i <= self.inner.len(),
                    language(re@) == Some(regex_language(*compiled)),
                    positions(at@) == matching(self@, re@, i as int),
                decreases self.inner.len() - i,
            {
                let ghost before = positions(at@);
                if is_match(compiled, self.inner[i].0.ident()) {
                    at.push(i);
                    assert(positions(at@) =~= before.push(i as int));
                }
                i += 1;
            }
        }
        at
    }

    /// Filters out constants by identifier provided a regex matching against
    /// those identifiers.
    ///
    /// This routine does not allocate a new container for the borrowed view,
    /// instead reusing the provided one. Constants that the view has held before
    /// keep the state with which they entered it.
    ///
    /// # Errors
    ///
    /// Fails if the regex failed to compile. This may be due to a byte size
    /// failure at the regex engine level, or due to a parsing failure at the
    /// regex syntax level. Nothing is changed then.
    pub fn filter_with(
        &mut self,
        re: &str,
        borrowed_container: &mut BorrowedContainer,
    ) -> (r: Result<(), FilterError>)
        requires
            old(borrowed_container).wf(old(self)@.len()),
        ensures
            final(self)@ == old(self)@,
            final(borrowed_container).wf(final(self)@.len()),
            old(self).known().contains(re@) || re@ == ".*"@ ==> r is Ok,
            match r {
                Ok(()) => {
                    let found = matching(old(self)@, re@, old(self)@.len() as int);
                    &&& language(re@) is Some
                    &&& re@ == ".*"@ ==> finds_all(re@)
                    &&& final(self).known() == old(self).known().insert(re@)
                    &&& final(borrowed_container).handles() == found
                    &&& final(borrowed_container).entered() == noted(
                        old(borrowed_container).entered(),
                        found,
                        old(self)@,
                    )
                },
                Err(err) => {
                    &&& final(self).known() == old(self).known()
                    &&& *final(borrowed_container) == *old(borrowed_container)
                    &&& err.repr().source() == re@
                    &&& err.repr() is RegexSyntax <==> language(re@) is None
                },
            },
    {
        match self.re_cache.probe_re(re) {
            Err(err) => Err(err),
            Ok(()) => {
                let at: Vec<usize> = self.sift(re);
                proof {
                    lemma_matching(self@, re@, self@.len() as int);
                }
                borrowed_container.refill(self, &at);
                Ok(())
            },
        }
    }

    /// Filters out constants by identifier provided a regex matching against
    /// those identifiers.
    ///
    /// Returns a borrowed container that can bulk deprecate the matched
    /// constants at once, and remembers which constants have been modified to
    /// only effect those changes to disk later on.
    ///
    /// # Errors
    ///
    /// Fails if the regex failed to compile. This may be due to a byte size
    /// failure at the regex engine level, or due to a parsing failure at the
    /// regex syntax level.
    pub fn filter(&mut self, re: &str) -> (r: Result<BorrowedContainer, FilterError>)
        ensures
            final(self)@ == old(self)@,
            old(self).known().contains(re@) || re@ == ".*"@ ==> r is Ok,
            match r {
                Ok(view) => {
                    let found = matching(old(self)@, re@, old(self)@.len() as int);
                    &&& language(re@) is Some
                    &&& re@ == ".*"@ ==> finds_all(re@)
                    &&& final(self).known() == old(self).known().insert(re@)
                    &&& view.handles() == found
                    &&& view.entered() == noted(unknown(old(self)@.len()), found, old(self)@)
                    &&& view.wf(final(self)@.len())
                },
                Err(err) => {
                    &&& final(self).known() == old(self).known()
                    &&& err.repr().source() == re@
                    &&& err.repr() is RegexSyntax <==> language(re@) is None
                },
            },
    {
        let mut view: BorrowedContainer = self.borrowed();
        match self.filter_with(re, &mut view) {
            Ok(()) => Ok(view),
            Err(err) => Err(err),
        }
    }
}

proof fn lemma_matching(entries: Seq<EntryV>, re: Seq<char>, upto: int)
    requires
        0 <= upto <= entries.len(),
    ensures
        forall|i: int|
            0 <= i < matching(entries, re, upto).len() ==> 0 <= #[trigger] matching(
                entries,
                re,
                upto,
            )[i] < upto && selects(re, entries[matching(entries, re, upto)[i]].constant.ident),
        forall|i: int, j: int|
            0 <= i < j < matching(entries, re, upto).len() ==> matching(entries, re, upto)[i]
                < matching(entries, re, upto)[j],
        forall|k: int|
            0 <= k < upto && selects(re, (#[trigger] entries[k]).constant.ident) ==> matching(
                entries,
                re,
                upto,
            ).contains(k),
    decreases upto,
{
    if upto > 0 {
        lemma_matching(entries, re, upto - 1);
        let before = matching(entries, re, upto - 1);
        let now = matching(entries, re, upto);
        assert forall|k: int|
            0 <= k < upto && selects(re, (#[trigger] entries[k]).constant.ident) implies now.contains(
            k,
        ) by {
            if k < upto - 1 {
                let i = before.index_of(k);
                assert(now[i] == k);
            } else {
                assert(now[now.len() - 1] == k);
            }
        }
    }
}

/// Filtering finds the constants whose identifiers the regex matches, each once
/// and in the order of the container, and no others.
pub proof fn law_filter_exact(entries: Seq<EntryV>, re: Seq<char>)
    ensures
        forall|k: int|
            0 <= k < entries.len() ==> (matching(entries, re, entries.len() as int).contains(k)
                <==> selects(re, (#[trigger] entries[k]).constant.ident)),
        forall|i: int|
            0 <= i < matching(entries, re, entries.len() as int).len() ==> 0
                <= #[trigger] matching(entries, re, entries.len() as int)[i] < entries.len(),
        forall|i: int, j: int|
            0 <= i < j < matching(entries, re, entries.len() as int).len() ==> matching(
                entries,
                re,
                entries.len() as int,
            )[i] < matching(entries, re, entries.len() as int)[j],
{
    lemma_matching(entries, re, entries.len() as int);
}

/// A regex that finds a match everywhere leaves all constants in view.
pub proof fn law_filter_all(entries: Seq<EntryV>, re: Seq<char>)
    requires
        finds_all(re),
    ensures
        matching(entries, re, entries.len() as int) == Seq::new(entries.len(), |i: int| i),
{
    lemma_matching_all(entries, re, entries.len() as int);
}

proof fn lemma_matching_all(entries: Seq<EntryV>, re: Seq<char>, upto: int)
    requires
        finds_all(re),
        0 <= upto <= entries.len(),
    ensures
        matching(entries, re, upto) == Seq::new(upto as nat, |i: int| i),
    decreases upto,
{
    if upto > 0 {
        lemma_matching_all(entries, re, upto - 1);
        assert(selects(re, entries[upto - 1].constant.ident));
    }
    assert(matching(entries, re, upto) =~= Seq::new(upto as nat, |i: int| i));
}

/// Filtering into a view at hand finds the constants that filtering into a new
/// one does; what it remembers of them is what they were when they first entered.
pub proof fn law_filter_again(
    entered: Seq<Option<bool>>,
    first: Seq<int>,
    second: Seq<int>,
    entries: Seq<EntryV>,
    k: int,
)
    requires
        entered.len() == entries.len(),
        0 <= k < entries.len(),
        first.contains(k) || entered[k] is Some,
    ensures
        noted(noted(entered, first, entries), second, entries)[k] == noted(
            entered,
            first,
            entries,
        )[k],
{
}

/// Bulk marking what a filter found marks the constants whose identifiers the
/// regex matches and no others; those that are not as they were count as
/// modified.
pub proof fn law_filter_mark(entries: Seq<EntryV>, re: Seq<char>, yes: bool, k: int)
    requires
        0 <= k < entries.len(),
    ensures
        ({
            let found = matching(entries, re, entries.len() as int);
            let init = inits(found, noted(unknown(entries.len()), found, entries));
            marked(entries, found, init, yes)[k] == (if selects(re, entries[k].constant.ident) {
                EntryV {
                    constant: entries[k].constant.marked(yes),
                    modified: entries[k].constant.deprecated != yes,
                }
            } else {
                entries[k]
            })
        }),
{
    let found = matching(entries, re, entries.len() as int);
    let init = inits(found, noted(unknown(entries.len()), found, entries));
    lemma_matching(entries, re, entries.len() as int);
    law_marked(entries, found, init, yes, k);
    if selects(re, entries[k].constant.ident) {
        let m = found.index_of(k);
        assert(found[m] == k);
    } else if found.contains(k) {
        let m = found.index_of(k);
        assert(found[m] == k);
    }
}

} // verus!
