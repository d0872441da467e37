//! What is in view, and what marking it does.

use crate::constant::{Const, ConstV};
use crate::constant_container::borrowed::{
    fits, inits, law_marked, marked, noted, positions, rebased, unknown,
};
use crate::constant_container::indexer::{bounds, Indexer, Offset};
use crate::constant_container::visit::{
    changed, constants, first_named, picked, ran, resolved, window,
};
use crate::constant_container::{law_filter_exact, matching, ConstContainer, EntryV};
use crate::pattern::{pattern_language, selects};
use std::ops::{ControlFlow, Range};
use vstd::prelude::*;
use vstd::utf8::encode_utf8;

verus! {

/// A regex selects an identifier if it finds a match in its bytes, whatever the
/// case of letters is, and without regard to Unicode.
pub proof fn law_selects(re: Seq<char>, ident: Seq<char>)
    ensures
        pattern_language(re, false, true) is None ==> !selects(re, ident),
        pattern_language(re, false, true) is Some ==> (selects(re, ident) <==> pattern_language(
            re,
            false,
            true,
        )->0.contains(encode_utf8(ident))),
{
}

/// Filtering leaves in view every constant whose identifier the regex selects, and
/// no other, each once and in the order of the container.
pub proof fn law_filter(entries: Seq<EntryV>, re: Seq<char>)
    ensures
        forall|k: int|
            0 <= k < entries.len() ==> (#[trigger] matching(
                entries,
                re,
                entries.len() as int,
            ).contains(k) <==> pattern_language(re, false, true) is Some && pattern_language(
                re,
                false,
                true,
            )->0.contains(encode_utf8(entries[k].constant.ident))),
        fits(matching(entries, re, entries.len() as int), entries.len()),
        forall|i: int, j: int|
            0 <= i < j < matching(entries, re, entries.len() as int).len() ==> matching(
                entries,
                re,
                entries.len() as int,
            )[i] < matching(entries, re, entries.len() as int)[j],
        forall|i: int|
            0 <= i < matching(entries, re, entries.len() as int).len() ==> 0
                <= #[trigger] matching(entries, re, entries.len() as int)[i] < entries.len(),
{
    law_filter_exact(entries, re);
    assert forall|k: int| 0 <= k < entries.len() implies (#[trigger] matching(
        entries,
        re,
        entries.len() as int,
    ).contains(k) <==> pattern_language(re, false, true) is Some && pattern_language(
        re,
        false,
        true,
    )->0.contains(encode_utf8(entries[k].constant.ident))) by {
        law_selects(re, entries[k].constant.ident);
        assert(selects(re, entries[k].constant.ident) <==> matching(
            entries,
            re,
            entries.len() as int,
        ).contains(k));
    }
}

/// Handles that fit are on constants of the container, each on another one.
pub proof fn law_fits(handles: Seq<int>, n: nat)
    ensures
        fits(handles, n) <==> (forall|i: int|
            0 <= i < handles.len() ==> 0 <= #[trigger] handles[i] < n) && (forall|i: int, j: int|
            0 <= i < j < handles.len() ==> #[trigger] handles[i] < #[trigger] handles[j]),
{
}

/// Marking a view sets the state of every constant in it, and of no other. Of each
/// it is only the state that changes, and it counts as modified if that is not the
/// one it entered with.
pub proof fn law_marking(entries: Seq<EntryV>, handles: Seq<int>, init: Seq<bool>, yes: bool)
    requires
        fits(handles, entries.len()),
        init.len() == handles.len(),
    ensures
        marked(entries, handles, init, yes).len() == entries.len(),
        forall|m: int|
            0 <= m < handles.len() ==> marked(entries, handles, init, yes)[#[trigger] handles[m]]
                == (EntryV {
                constant: ConstV {
                    ident: entries[handles[m]].constant.ident,
                    deprecated: yes,
                    span: entries[handles[m]].constant.span,
                    source: entries[handles[m]].constant.source,
                },
                modified: init[m] != yes,
            }),
        forall|k: int|
            0 <= k < entries.len() && !handles.contains(k) ==> #[trigger] marked(
                entries,
                handles,
                init,
                yes,
            )[k] == entries[k],
{
    assert forall|m: int| 0 <= m < handles.len() implies marked(entries, handles, init, yes)[
    #[trigger] handles[m]] == (EntryV {
        constant: ConstV {
            ident: entries[handles[m]].constant.ident,
            deprecated: yes,
            span: entries[handles[m]].constant.span,
            source: entries[handles[m]].constant.source,
        },
        modified: init[m] != yes,
    }) by {
        law_marked(entries, handles, init, yes, handles[m]);
    }
    assert forall|k: int| 0 <= k < entries.len() && !handles.contains(k) implies #[trigger] marked(
        entries,
        handles,
        init,
        yes,
    )[k] == entries[k] by {
        law_marked(entries, handles, init, yes, k);
    }
}

/// A constant enters a view with the state that it has when it is first found, and
/// what the view remembers of it stays the same from then on.
pub proof fn law_entering(entered: Seq<Option<bool>>, found: Seq<int>, entries: Seq<EntryV>)
    requires
        entered.len() == entries.len(),
    ensures
        noted(entered, found, entries).len() == entries.len(),
        forall|k: int|
            0 <= k < entries.len() && (#[trigger] entered[k]) is Some ==> noted(
                entered,
                found,
                entries,
            )[k] == entered[k],
        forall|k: int|
            0 <= k < entries.len() && (#[trigger] entered[k]) is None && found.contains(k)
                ==> noted(entered, found, entries)[k] == Some(entries[k].constant.deprecated),
        forall|k: int|
            0 <= k < entries.len() && (#[trigger] entered[k]) is None && !found.contains(k)
                ==> noted(entered, found, entries)[k] is None,
        unknown(entries.len()).len() == entries.len(),
        forall|k: int| 0 <= k < entries.len() ==> (#[trigger] unknown(entries.len())[k]) is None,
{
}

/// Of each constant in view it is known in which state that one entered.
pub proof fn law_entered_with(handles: Seq<int>, entered: Seq<Option<bool>>)
    ensures
        inits(handles, entered).len() == handles.len(),
        forall|m: int|
            0 <= m < handles.len() ==> #[trigger] inits(handles, entered)[m]
                == entered[handles[m]]->0,
{
}

/// After a save, each constant that the view has held counts as if it entered in
/// the state that its file holds: the one that it has, unless it is modified.
pub proof fn law_rebased(entered: Seq<Option<bool>>, entries: Seq<EntryV>)
    requires
        entered.len() == entries.len(),
    ensures
        rebased(entered, entries).len() == entries.len(),
        forall|k: int|
            0 <= k < entries.len() ==> match #[trigger] entered[k] {
                Some(_) => rebased(entered, entries)[k] == Some(
                    if entries[k].modified {
                        !entries[k].constant.deprecated
                    } else {
                        entries[k].constant.deprecated
                    },
                ),
                None => rebased(entered, entries)[k] is None,
            },
{
}

/// A traversal goes through the constants in view, in order.
pub proof fn law_traversal(
    elements: Seq<usize>,
    handles: Seq<int>,
    owner: ConstContainer,
    entries: Seq<EntryV>,
)
    ensures
        positions(elements).len() == elements.len(),
        forall|i: int|
            0 <= i < elements.len() ==> #[trigger] positions(elements)[i] == elements[i],
        resolved(handles, owner).len() == handles.len(),
        forall|i: int|
            0 <= i < handles.len() ==> #[trigger] resolved(handles, owner)[i] == owner.at(
                handles[i],
            ),
        constants(handles, entries).len() == handles.len(),
        forall|i: int|
            0 <= i < handles.len() ==> #[trigger] constants(handles, entries)[i]
                == entries[handles[i]].constant,
{
}

/// A window holds the elements whose index lies between its bounds, and no others.
pub proof fn law_window<T>(s: Seq<T>, from: int, to: int)
    requires
        0 <= from,
    ensures
        window(s, from, to).len() == (if to <= from || s.len() <= from {
            0int
        } else if to <= s.len() {
            to - from
        } else {
            s.len() - from
        }),
        forall|i: int|
            0 <= i < window(s, from, to).len() ==> #[trigger] window(s, from, to)[i] == s[from + i],
{
}

/// A range picks the constants whose index is at least its start and less than its
/// end.
pub proof fn law_picked<I: Offset, X: Indexer<Range<I>>>(seen: Seq<Const>, range: X)
    ensures
        bounds::<I, X>(range).0 == range.eval_spec().start.offset_spec(),
        bounds::<I, X>(range).1 == range.eval_spec().end.offset_spec(),
        forall|i: int|
            0 <= i < picked::<I, X>(seen, range).len() ==> #[trigger] picked::<I, X>(seen, range)[i]
                == seen[range.eval_spec().start.offset_spec() + i],
        forall|j: int|
            range.eval_spec().start.offset_spec() <= j < range.eval_spec().end.offset_spec() && j
                < seen.len() ==> j - range.eval_spec().start.offset_spec() < picked::<I, X>(
                seen,
                range,
            ).len() && #[trigger] seen[j] == picked::<I, X>(seen, range)[j
                - range.eval_spec().start.offset_spec()],
        range.eval_spec().start.offset_spec() + picked::<I, X>(seen, range).len()
            <= range.eval_spec().end.offset_spec() || picked::<I, X>(seen, range).len() == 0,
{
    law_window(seen, bounds::<I, X>(range).0, bounds::<I, X>(range).1);
}

/// An offset is the number that it is written as, and a range is the one behind a
/// reference to it.
pub proof fn law_offsets(a: u8, b: u16, c: usize, range: Range<usize>)
    ensures
        a.offset_spec() == a,
        b.offset_spec() == b,
        c.offset_spec() == c,
        range.eval_spec() == range,
        (&range).eval_spec() == range,
{
}

/// A traversal that was not put on halt handed every constant to the visitor; one
/// that was handed over all up to the one at which the visitor broke, and came back
/// with what it broke with.
pub proof fn law_visited<B, F: FnMut(&Const) -> ControlFlow<B>>(
    f: F,
    seen: Seq<Const>,
    out: Seq<ControlFlow<B>>,
    r: Option<B>,
)
    requires
        ran(f, seen, out, r),
    ensures
        forall|i: int| 0 <= i < out.len() ==> call_ensures(f, (&seen[i],), #[trigger] out[i]),
        r is None ==> out.len() == seen.len() && forall|i: int|
            0 <= i < out.len() ==> (#[trigger] out[i]) is Continue,
        r is Some ==> 0 < out.len() <= seen.len() && out[out.len() - 1] == ControlFlow::<
            B,
        >::Break(r->0) && forall|i: int|
            0 <= i < out.len() - 1 ==> (#[trigger] out[i]) is Continue,
{
}

/// A traversal that changes constants in place goes on for as long, and touches
/// none but those that it handed over. Which of them count as modified stays the
/// same.
pub proof fn law_changed<B>(
    at: Seq<int>,
    before: ConstContainer,
    after: ConstContainer,
    out: Seq<ControlFlow<B>>,
    r: Option<B>,
)
    requires
        changed(at, before, after, out, r),
    ensures
        r is None ==> out.len() == at.len() && forall|i: int|
            0 <= i < out.len() ==> (#[trigger] out[i]) is Continue,
        r is Some ==> 0 < out.len() <= at.len() && out[out.len() - 1] == ControlFlow::<B>::Break(
            r->0,
        ) && forall|i: int| 0 <= i < out.len() - 1 ==> (#[trigger] out[i]) is Continue,
        after@.len() == before@.len(),
        after.known() == before.known(),
        forall|k: int|
            0 <= k < before@.len() ==> (#[trigger] after@[k]).modified == before@[k].modified,
        forall|k: int|
            0 <= k < before@.len() && (forall|i: int|
                0 <= i < out.len() ==> #[trigger] at[i] != k) ==> #[trigger] after.at(k)
                == before.at(k),
{
    assert forall|k: int|
        0 <= k < before@.len() && (forall|i: int|
            0 <= i < out.len() ==> #[trigger] at[i] != k) implies #[trigger] after.at(k)
        == before.at(k) by {
        let some = at.take(out.len() as int);
        if some.contains(k) {
            let i = some.index_of(k);
            assert(at[i] == k);
        }
    }
}

/// A constant is found by name if it is the first of that name.
pub proof fn law_first_named(seen: Seq<Const>, sym: Seq<char>, i: int)
    ensures
        first_named(seen, sym, i) <==> 0 <= i < seen.len() && seen[i]@.ident == sym && forall|
            j: int,
        |
            0 <= j < i ==> (#[trigger] seen[j])@.ident != sym,
{
}

} // verus!
