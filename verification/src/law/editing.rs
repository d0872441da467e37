//! What becomes of a source file that is rewritten.

use crate::constant::{ConstV, LineColumn};
use crate::edit::{
    const_rewritten, first_deprecated, item_rewritten,
    lemma_first_found, lemma_verdict, remarked, rewritten, statement_rewritten, tree_rewritten,
    verdict,
};
use crate::law::parsing::{bears_deprecated, law_all_blocks};
use crate::parser::blocks;
use crate::syntax::{swap_removed, AttrV, ConstItemV, ItemV};
use vstd::prelude::*;
use vstd::seq_lib::{group_to_multiset_ensures, to_multiset_update};

verus! {

/// The notice that a deprecated constant gets.
pub open spec fn full_notice() -> AttrV {
    AttrV {
        path: Some("deprecated"@),
        says: Some(
            (
                "1.0.0"@,
                "This constant, among others often used in C for the purposes of denoting the latest value or limit in a set of constants, has been deprecated. See #3131 for details and discussion."@,
            ),
        ),
    }
}

/// Whether `after` is `before` with the notice behind all that was there.
pub open spec fn one_more(before: Seq<AttrV>, after: Seq<AttrV>) -> bool {
    &&& after.len() == before.len() + 1
    &&& forall|b: int| 0 <= b < before.len() ==> #[trigger] after[b] == before[b]
    &&& after.last() == full_notice()
}

/// Whether `after` is `before` without the attribute at a position, which is the
/// first one that is `deprecated`. The last one takes its place, and all others
/// stay where they are.
pub open spec fn one_less_at(before: Seq<AttrV>, after: Seq<AttrV>, a: int) -> bool {
    &&& 0 <= a < before.len()
    &&& before[a].path == Some("deprecated"@)
    &&& forall|b: int| 0 <= b < a ==> (#[trigger] before[b]).path != Some("deprecated"@)
    &&& after.len() == before.len() - 1
    &&& forall|b: int| 0 <= b < after.len() && b != a ==> #[trigger] after[b] == before[b]
    &&& a < after.len() ==> after[a] == before.last()
    &&& after.to_multiset().insert(before[a]) == before.to_multiset()
}

/// Whether `after` is `before` without one of its `deprecated` attributes, if it
/// has any.
pub open spec fn one_less(before: Seq<AttrV>, after: Seq<AttrV>) -> bool {
    if bears_deprecated(before) {
        exists|a: int| one_less_at(before, after, a)
    } else {
        after == before
    }
}

/// Deprecating a constant adds a notice and leaves all its other attributes.
pub proof fn law_notice_added(attrs: Seq<AttrV>)
    ensures
        one_more(attrs, remarked(attrs, true)),
        remarked(attrs, true).to_multiset() == attrs.to_multiset().insert(full_notice()),
{
    broadcast use group_to_multiset_ensures;

}

/// Undeprecating a constant takes away one attribute, which is `deprecated`, and
/// no more: all others are kept, wherever it stands among them. Where there is none
/// to be taken away, nothing is.
pub proof fn law_notice_removed(attrs: Seq<AttrV>)
    ensures
        one_less(attrs, remarked(attrs, false)),
        forall|b: int|
            0 <= b < attrs.len() && (#[trigger] attrs[b]).path != Some("deprecated"@) ==> remarked(
                attrs,
                false,
            ).contains(attrs[b]),
{
    broadcast use group_to_multiset_ensures;

    lemma_first_found(attrs);
    let after = remarked(attrs, false);
    match first_deprecated(attrs) {
        Some(a) => {
            assert(bears_deprecated(attrs));
            lemma_swap_removed(attrs, a);
            assert(one_less_at(attrs, after, a));
            assert forall|b: int|
                0 <= b < attrs.len() && (#[trigger] attrs[b]).path != Some(
                    "deprecated"@,
                ) implies after.contains(attrs[b]) by {
                if b < after.len() {
                    assert(after[b] == attrs[b]);
                } else {
                    assert(after[a] == attrs[b]);
                }
            }
        },
        None => {
            assert(!bears_deprecated(attrs));
            assert forall|b: int| 0 <= b < attrs.len() implies after.contains(
                #[trigger] attrs[b],
            ) by {
                assert(after[b] == attrs[b]);
            }
        },
    }
}

proof fn lemma_swap_removed(attrs: Seq<AttrV>, a: int)
    requires
        0 <= a < attrs.len(),
    ensures
        swap_removed(attrs, a).to_multiset().insert(attrs[a]) == attrs.to_multiset(),
{
    broadcast use group_to_multiset_ensures;

    let last = attrs.len() - 1;
    let after = swap_removed(attrs, a);
    if a == last {
        assert(after =~= attrs.drop_last());
        assert(attrs =~= after.push(attrs[a]));
    } else {
        let front = attrs.drop_last();
        assert(attrs =~= front.push(attrs[last]));
        assert(after =~= front.update(a, attrs[last]));
        assert(front.to_multiset().remove(front[a]).insert(attrs[last]) == after.to_multiset()) by {
            to_multiset_update(front, a, attrs[last]);
        }
        assert(after.to_multiset().insert(attrs[a]) =~= attrs.to_multiset());
    }
}

/// Whether a change is the first that is about the constant.
pub open spec fn first_about(changes: Seq<ConstV>, c: ConstItemV, m: int) -> bool {
    &&& 0 <= m < changes.len()
    &&& changes[m].ident == c.ident
    &&& changes[m].span == c.span
    &&& forall|j: int|
        0 <= j < m ==> (#[trigger] changes[j]).ident != c.ident || changes[j].span != c.span
}

/// Whether none of the changes is about the constant.
pub open spec fn none_about(changes: Seq<ConstV>, c: ConstItemV) -> bool {
    forall|j: int|
        0 <= j < changes.len() ==> (#[trigger] changes[j]).ident != c.ident || changes[j].span
            != c.span
}

/// The first change that is about a constant decides what becomes of it.
pub proof fn law_first_change_decides(changes: Seq<ConstV>, c: ConstItemV)
    ensures
        forall|m: int|
            #[trigger] first_about(changes, c, m) ==> verdict(changes, c.ident, c.span) == Some(
                changes[m].deprecated,
            ),
        none_about(changes, c) ==> verdict(changes, c.ident, c.span) is None,
{
    assert forall|m: int| #[trigger] first_about(changes, c, m) implies verdict(
        changes,
        c.ident,
        c.span,
    ) == Some(changes[m].deprecated) by {
        let front = changes.take(m);
        lemma_no_verdict(front, c.ident, c.span);
        assert(changes.take(m + 1).drop_last() =~= front);
        assert(changes.take(m + 1).last() == changes[m]);
        lemma_verdict(changes, m + 1, c.ident, c.span);
    }
    if none_about(changes, c) {
        lemma_no_verdict(changes, c.ident, c.span);
    }
}

proof fn lemma_no_verdict(changes: Seq<ConstV>, ident: Seq<char>, span: LineColumn)
    requires
        forall|j: int|
            0 <= j < changes.len() ==> (#[trigger] changes[j]).ident != ident || changes[j].span
                != span,
    ensures
        verdict(changes, ident, span) is None,
    decreases changes.len(),
{
    if changes.len() > 0 {
        let shorter = changes.drop_last();
        assert(forall|j: int| 0 <= j < shorter.len() ==> #[trigger] shorter[j] == changes[j]);
        lemma_no_verdict(shorter, ident, span);
        assert(changes.last() == changes[changes.len() - 1]);
    }
}

/// Whether `after` is what the changes make of the constant `before`: the first
/// change that is about it gives it a notice or takes one away, and nothing else.
/// Where it then starts goes by its first token.
pub open spec fn as_changed(before: ConstItemV, after: ConstItemV, changes: Seq<ConstV>) -> bool {
    &&& forall|m: int|
        #[trigger] first_about(changes, before, m) ==> {
            &&& after.ident == before.ident
            &&& changes[m].deprecated ==> one_more(before.attrs, after.attrs)
            &&& !changes[m].deprecated ==> one_less(before.attrs, after.attrs)
        }
    &&& none_about(changes, before) ==> after == before
}

proof fn lemma_as_changed(before: ConstItemV, after: ConstItemV, changes: Seq<ConstV>)
    requires
        const_rewritten(before, after, changes),
    ensures
        as_changed(before, after, changes),
{
    law_first_change_decides(changes, before);
    law_notice_added(before.attrs);
    law_notice_removed(before.attrs);
}

/// A constant that is an item of a rewritten file is as the changes make it. Other
/// items stay as they are, but for `cfg_if` macros without a name.
pub proof fn law_items_rewritten(before: Seq<ItemV>, after: Seq<ItemV>, changes: Seq<ConstV>)
    requires
        rewritten(before, after, changes),
    ensures
        after.len() == before.len(),
        forall|i: int|
            0 <= i < before.len() && (#[trigger] before[i]) is Const ==> after[i] is Const
                && as_changed(before[i]->Const_0, after[i]->Const_0, changes),
        forall|i: int|
            0 <= i < before.len() && (#[trigger] before[i]) is Other ==> after[i] == before[i],
        forall|i: int|
            0 <= i < before.len() && (#[trigger] before[i]) is Macro && (before[i]->Macro_0.named
                || before[i]->Macro_0.path != Some("cfg_if"@) || blocks(
                before[i]->Macro_0.body,
            ) is None) ==> after[i] == before[i],
{
    assert forall|i: int| 0 <= i < before.len() && (
    #[trigger] before[i]) is Const implies after[i] is Const && as_changed(
        before[i]->Const_0,
        after[i]->Const_0,
        changes,
    ) by {
        assert(item_rewritten(before[i], after[i], changes));
        lemma_as_changed(before[i]->Const_0, after[i]->Const_0, changes);
    }
    assert forall|i: int| 0 <= i < before.len() && (
    #[trigger] before[i]) is Other implies after[i] == before[i] by {
        assert(item_rewritten(before[i], after[i], changes));
    }
    assert forall|i: int|
        0 <= i < before.len() && (#[trigger] before[i]) is Macro && (before[i]->Macro_0.named
            || before[i]->Macro_0.path != Some("cfg_if"@) || blocks(
            before[i]->Macro_0.body,
        ) is None) implies after[i] == before[i] by {
        assert(item_rewritten(before[i], after[i], changes));
    }
}

/// A constant in any block of a `cfg_if` macro of a rewritten file is as the
/// changes make it. All else about the macro stays as it is: its other tokens, and
/// the other statements of its blocks.
pub proof fn law_blocks_rewritten(
    before: Seq<ItemV>,
    after: Seq<ItemV>,
    changes: Seq<ConstV>,
    i: int,
)
    requires
        rewritten(before, after, changes),
        0 <= i < before.len(),
        before[i] is Macro,
        !before[i]->Macro_0.named,
        before[i]->Macro_0.path == Some("cfg_if"@),
        blocks(before[i]->Macro_0.body) is Some,
    ensures
        after[i] is Macro,
        !after[i]->Macro_0.named,
        after[i]->Macro_0.path == Some("cfg_if"@),
        ({
            let was = before[i]->Macro_0.body;
            let is = after[i]->Macro_0.body;
            &&& is.len() == was.len()
            &&& forall|t: int|
                0 <= t < was.len() && !((#[trigger] was[t]) is Brace) ==> is[t] == was[t]
            &&& forall|t: int|
                0 <= t < was.len() && (#[trigger] was[t]) is Brace ==> is[t] is Brace
                    && is[t]->Brace_0 is Some && is[t]->Brace_0->0.len()
                    == was[t]->Brace_0->0.len()
            &&& forall|t: int, s: int|
                0 <= t < was.len() && was[t] is Brace && 0 <= s < was[t]->Brace_0->0.len() ==> {
                    let stmt = #[trigger] was[t]->Brace_0->0[s];
                    let now = is[t]->Brace_0->0[s];
                    match stmt {
                        Some(c) => now is Some && as_changed(c, now->0, changes),
                        None => now is None,
                    }
                }
        }),
{
    assert(item_rewritten(before[i], after[i], changes));
    let was = before[i]->Macro_0.body;
    let is = after[i]->Macro_0.body;
    let at = blocks(was)->0;
    law_all_blocks(was);
    assert forall|t: int| 0 <= t < was.len() && !((#[trigger] was[t]) is Brace) implies is[t]
        == was[t] by {
        assert(!at.contains(t));
    }
    assert forall|t: int| 0 <= t < was.len() && (#[trigger] was[t]) is Brace implies is[t] is Brace
        && is[t]->Brace_0 is Some && is[t]->Brace_0->0.len() == was[t]->Brace_0->0.len() by {
        assert(at.contains(t));
        assert(tree_rewritten(was[t], is[t], changes));
    }
    assert forall|t: int, s: int|
        0 <= t < was.len() && was[t] is Brace && 0 <= s < was[t]->Brace_0->0.len() implies {
        let stmt = #[trigger] was[t]->Brace_0->0[s];
        let now = is[t]->Brace_0->0[s];
        match stmt {
            Some(c) => now is Some && as_changed(c, now->0, changes),
            None => now is None,
        }
    } by {
        assert(at.contains(t));
        assert(tree_rewritten(was[t], is[t], changes));
        let stmt = was[t]->Brace_0->0[s];
        let now = is[t]->Brace_0->0[s];
        assert(statement_rewritten(stmt, now, changes));
        if stmt is Some {
            lemma_as_changed(stmt->0, now->0, changes);
        }
    }
}

} // verus!
