//! Rewrites the attributes of constants in a source file.

use crate::constant::{Const, ConstV, LineColumn};
use crate::parser::{
    block_at, block_constants, blocks, chain_constants, constants_of, deprecated_position,
    find_chain, is_cfg_if, is_cfg_if_head, item_constants, items_constants, lemma_blocks, outline,
    read_tokens, says_deprecated, token,
};
use crate::syntax::{
    block_statements, body_at, const_item, deprecation, file_items, has_statement, has_tree,
    item_count, macro_head, only_attrs, parsed_source, path_view, push_deprecated,
    push_deprecated_within, statement, statements_at, swap_remove_attribute,
    swap_remove_attribute_within, swap_removed, with_const, with_statement, AttrV, ConstItem,
    ConstItemV, ItemV, MacroItemV, TreeV,
};
use crate::text::same_text;
use vstd::prelude::*;

verus! {

/// The release that the attributes name.
pub const DEPRECATED_SINCE: &'static str = "1.0.0";

/// What the attributes say.
pub const DEPRECATION_NOTICE: &'static str =
    "This constant, among others often used in C for the purposes of denoting the latest value or limit in a set of constants, has been deprecated. See #3131 for details and discussion.";

/// The attribute that a constant gets.
pub open spec fn notice() -> AttrV {
    deprecation(DEPRECATED_SINCE@, DEPRECATION_NOTICE@)
}

/// Where the first `deprecated` attribute is, if there is one.
pub open spec fn first_deprecated(attrs: Seq<AttrV>) -> Option<int>
    decreases attrs.len(),
{
    if attrs.len() == 0 {
        None
    } else {
        match first_deprecated(attrs.drop_last()) {
            Some(a) => Some(a),
            None => if attrs.last().path == Some("deprecated"@) {
                Some(attrs.len() - 1)
            } else {
                None
            },
        }
    }
}

/// The attributes of a constant that is to be deprecated, or not: with a notice
/// added, or with the first `deprecated` one removed.
pub open spec fn remarked(attrs: Seq<AttrV>, yes: bool) -> Seq<AttrV> {
    if yes {
        attrs.push(notice())
    } else {
        match first_deprecated(attrs) {
            Some(a) => swap_removed(attrs, a),
            None => attrs,
        }
    }
}

/// What is to become of the constant with an identifier and a start: the first of
/// the constants that has these decides.
pub open spec fn verdict(changes: Seq<ConstV>, ident: Seq<char>, span: LineColumn) -> Option<bool>
    decreases changes.len(),
{
    if changes.len() == 0 {
        None
    } else {
        match verdict(changes.drop_last(), ident, span) {
            Some(yes) => Some(yes),
            None => if changes.last().ident == ident && changes.last().span == span {
                Some(changes.last().deprecated)
            } else {
                None
            },
        }
    }
}

/// Whether `after` is what the changes make of the constant `before`.
pub open spec fn const_rewritten(
    before: ConstItemV,
    after: ConstItemV,
    changes: Seq<ConstV>,
) -> bool {
    match verdict(changes, before.ident, before.span) {
        Some(yes) => only_attrs(before, after, remarked(before.attrs, yes)),
        None => after == before,
    }
}

/// Whether `after` is what the changes make of the statement `before`.
pub open spec fn statement_rewritten(
    before: Option<ConstItemV>,
    after: Option<ConstItemV>,
    changes: Seq<ConstV>,
) -> bool {
    match before {
        Some(c) => after is Some && const_rewritten(c, after->0, changes),
        None => after is None,
    }
}

/// Whether `after` is what the changes make of the statements `before`.
pub open spec fn block_rewritten(
    before: Seq<Option<ConstItemV>>,
    after: Seq<Option<ConstItemV>>,
    changes: Seq<ConstV>,
) -> bool {
    &&& after.len() == before.len()
    &&& forall|s: int|
        0 <= s < before.len() ==> statement_rewritten(before[s], #[trigger] after[s], changes)
}

/// Whether `after` is what the changes make of the block `before`.
pub open spec fn tree_rewritten(before: TreeV, after: TreeV, changes: Seq<ConstV>) -> bool {
    &&& after is Brace
    &&& after->Brace_0 is Some
    &&& block_rewritten(before->Brace_0->0, after->Brace_0->0, changes)
}

/// Whether constants are rewritten in the body of a macro.
pub open spec fn editable(m: MacroItemV) -> bool {
    &&& !m.named
    &&& m.path == Some("cfg_if"@)
    &&& blocks(m.body) is Some
}

/// Whether `after` is what the changes make of the body `before`: the blocks at
/// the given positions are rewritten, and nothing else.
pub open spec fn body_rewritten(
    before: Seq<TreeV>,
    after: Seq<TreeV>,
    at: Seq<int>,
    changes: Seq<ConstV>,
) -> bool {
    &&& after.len() == before.len()
    &&& forall|t: int|
        0 <= t < before.len() ==> if at.contains(t) {
            tree_rewritten(before[t], #[trigger] after[t], changes)
        } else {
            after[t] == before[t]
        }
}

/// Whether `after` is what the changes make of the item `before`.
pub open spec fn item_rewritten(before: ItemV, after: ItemV, changes: Seq<ConstV>) -> bool {
    match before {
        ItemV::Const(c) => after is Const && const_rewritten(c, after->Const_0, changes),
        ItemV::Macro(m) => if editable(m) {
            &&& after is Macro
            &&& after->Macro_0.named == m.named
            &&& after->Macro_0.path == m.path
            &&& body_rewritten(m.body, after->Macro_0.body, blocks(m.body)->0, changes)
        } else {
            after == before
        },
        ItemV::Other => after == before,
    }
}

/// Whether `after` is what the changes make of the items `before`.
pub open spec fn rewritten(before: Seq<ItemV>, after: Seq<ItemV>, changes: Seq<ConstV>) -> bool {
    &&& after.len() == before.len()
    &&& forall|i: int|
        0 <= i < before.len() ==> item_rewritten(before[i], #[trigger] after[i], changes)
}

/// What constants hold.
pub open spec fn views(changes: Seq<Const>) -> Seq<ConstV> {
    changes.map_values(|c: Const| c@)
}

/// What is to become of an item.
pub fn find_verdict(changes: &Vec<Const>, item: &ConstItem) -> (r: Option<bool>)
    ensures
        r == verdict(views(changes@), item@.ident, item@.span),
{
    let ghost all = views(changes@);
    let mut k: usize = 0;
    while k < changes.len()
        invariant
            k <= changes@.len(),
            all == views(changes@),
            verdict(all.take(k as int), item@.ident, item@.span) is None,
        decreases changes@.len() - k,
    {
        assert(all.take(k + 1).drop_last() =~= all.take(k as int));
        let change: &Const = &changes[k];
        if same_text(change.ident(), item.ident.as_str()) && change.span() == item.span {
            proof {
                lemma_verdict(all, k + 1, item@.ident, item@.span);
            }
            return Some(change.is_deprecated());
        }
        k += 1;
    }
    assert(all.take(changes@.len() as int) =~= all);
    None
}

/// The first constants decide.
pub proof fn lemma_verdict(changes: Seq<ConstV>, k: int, ident: Seq<char>, span: LineColumn)
    requires
        0 <= k <= changes.len(),
        verdict(changes.take(k), ident, span) is Some,
    ensures
        verdict(changes, ident, span) == verdict(changes.take(k), ident, span),
    decreases changes.len(),
{
    if k == changes.len() {
        assert(changes.take(k) =~= changes);
    } else {
        assert(changes.drop_last().take(k) =~= changes.take(k));
        lemma_verdict(changes.drop_last(), k, ident, span);
    }
}

proof fn lemma_first_deprecated(attrs: Seq<AttrV>, a: int)
    requires
        0 <= a < attrs.len(),
        attrs[a].path == Some("deprecated"@),
        forall|b: int| 0 <= b < a ==> (#[trigger] attrs[b]).path != Some("deprecated"@),
    ensures
        first_deprecated(attrs) == Some(a),
    decreases attrs.len(),
{
    let shorter = attrs.drop_last();
    if a == attrs.len() - 1 {
        lemma_none_deprecated(shorter);
    } else {
        lemma_first_deprecated(shorter, a);
    }
}

proof fn lemma_none_deprecated(attrs: Seq<AttrV>)
    requires
        forall|b: int| 0 <= b < attrs.len() ==> (#[trigger] attrs[b]).path != Some("deprecated"@),
    ensures
        first_deprecated(attrs) is None,
    decreases attrs.len(),
{
    if attrs.len() > 0 {
        lemma_none_deprecated(attrs.drop_last());
        assert(attrs.last() == attrs[attrs.len() - 1]);
    }
}

/// What is found among the paths holds of the attributes.
proof fn lemma_position(c: ConstItemV, item: ConstItem, position: Option<usize>)
    requires
        c.head() == item@,
        match position {
            Some(a) => {
                &&& a < item.paths@.len()
                &&& path_view(item.paths@[a as int]) == Some("deprecated"@)
                &&& forall|b: int|
                    0 <= b < a ==> path_view(#[trigger] item.paths@[b]) != Some("deprecated"@)
            },
            None => forall|b: int|
                0 <= b < item.paths@.len() ==> path_view(#[trigger] item.paths@[b]) != Some(
                    "deprecated"@,
                ),
        },
    ensures
        match position {
            Some(a) => a < c.attrs.len() && first_deprecated(c.attrs) == Some(a as int),
            None => first_deprecated(c.attrs) is None,
        },
{
    assert(c.attrs.len() == item.paths@.len()) by {
        assert(c.head().paths.len() == item@.paths.len());
    }
    assert forall|b: int| 0 <= b < c.attrs.len() implies (#[trigger] c.attrs[b]).path == path_view(
        item.paths@[b],
    ) by {
        assert(c.head().paths[b] == item@.paths[b]);
    }
    match position {
        Some(a) => {
            assert forall|b: int| 0 <= b < a implies (#[trigger] c.attrs[b]).path != Some(
                "deprecated"@,
            ) by {
                assert(path_view(item.paths@[b]) != Some("deprecated"@));
            }
            lemma_first_deprecated(c.attrs, a as int);
        },
        None => {
            assert forall|b: int| 0 <= b < c.attrs.len() implies (#[trigger] c.attrs[b]).path
                != Some("deprecated"@) by {
                assert(path_view(item.paths@[b]) != Some("deprecated"@));
            }
            lemma_none_deprecated(c.attrs);
        },
    }
}

/// Rewrites the constant that is the item at a position.
fn edit_const(file: &mut syn::File, i: usize, item: &ConstItem, changes: &Vec<Const>)
    requires
        i < file_items(*old(file)).len(),
        file_items(*old(file))[i as int] is Const,
        file_items(*old(file))[i as int]->Const_0.head() == item@,
    ensures
        exists|c: ConstItemV|
            file_items(*final(file)) == #[trigger] with_const(file_items(*old(file)), i as int, c)
                && const_rewritten(file_items(*old(file))[i as int]->Const_0, c, views(changes@)),
{
    let ghost items = file_items(*file);
    let ghost before = items[i as int]->Const_0;
    match find_verdict(changes, item) {
        None => {
            assert(with_const(items, i as int, before) =~= items);
        },
        Some(yes) => {
            if yes {
                push_deprecated(file, i, DEPRECATED_SINCE, DEPRECATION_NOTICE);
            } else {
                let position: Option<usize> = deprecated_position(&item.paths);
                proof {
                    lemma_position(before, *item, position);
                }
                match position {
                    Some(a) => swap_remove_attribute(file, i, a),
                    None => {
                        assert(with_const(items, i as int, before) =~= items);
                    },
                }
            }
        },
    }
}

/// The items with other statements in the place of those of a block.
pub open spec fn with_block(
    items: Seq<ItemV>,
    i: int,
    t: int,
    stmts: Seq<Option<ConstItemV>>,
) -> Seq<ItemV> {
    with_body(items, i, body_at(items, i).update(t, TreeV::Brace(Some(stmts))))
}

/// The items with another body in the place of that of a macro.
pub open spec fn with_body(items: Seq<ItemV>, i: int, body: Seq<TreeV>) -> Seq<ItemV> {
    items.update(i, ItemV::Macro(MacroItemV { body, ..items[i]->Macro_0 }))
}

proof fn lemma_same_block(items: Seq<ItemV>, i: int, t: int)
    requires
        has_tree(items, i, t),
        block_at(body_at(items, i), t),
    ensures
        with_block(items, i, t, statements_at(items, i, t)) == items,
{
    assert(body_at(items, i).update(t, TreeV::Brace(Some(statements_at(items, i, t))))
        =~= body_at(items, i));
    assert(with_block(items, i, t, statements_at(items, i, t)) =~= items);
}

/// Rewrites the constant that is a statement in a block.
fn edit_statement(
    file: &mut syn::File,
    i: usize,
    t: usize,
    s: usize,
    item: &ConstItem,
    changes: &Vec<Const>,
)
    requires
        has_statement(file_items(*old(file)), i as int, t as int, s as int),
        statements_at(file_items(*old(file)), i as int, t as int)[s as int] is Some,
        statements_at(file_items(*old(file)), i as int, t as int)[s as int]->0.head() == item@,
    ensures
        exists|c: ConstItemV|
            file_items(*final(file)) == #[trigger] with_statement(
                file_items(*old(file)),
                i as int,
                t as int,
                s as int,
                c,
            ) && const_rewritten(
                statements_at(file_items(*old(file)), i as int, t as int)[s as int]->0,
                c,
                views(changes@),
            ),
{
    let ghost items = file_items(*file);
    let ghost stmts = statements_at(items, i as int, t as int);
    let ghost before = stmts[s as int]->0;
    proof {
        assert(stmts.update(s as int, Some(before)) =~= stmts);
        lemma_same_block(items, i as int, t as int);
        assert(with_statement(items, i as int, t as int, s as int, before) == items);
    }
    match find_verdict(changes, item) {
        None => {},
        Some(yes) => {
            if yes {
                push_deprecated_within(file, i, t, s, DEPRECATED_SINCE, DEPRECATION_NOTICE);
            } else {
                let position: Option<usize> = deprecated_position(&item.paths);
                proof {
                    lemma_position(before, *item, position);
                }
                match position {
                    Some(a) => swap_remove_attribute_within(file, i, t, s, a),
                    None => {},
                }
            }
        },
    }
}

/// Rewrites the constants in a block of `n` statements.
fn edit_block(file: &mut syn::File, i: usize, t: usize, n: usize, changes: &Vec<Const>)
    requires
        has_tree(file_items(*old(file)), i as int, t as int),
        block_at(body_at(file_items(*old(file)), i as int), t as int),
        n == statements_at(file_items(*old(file)), i as int, t as int).len(),
    ensures
        exists|stmts: Seq<Option<ConstItemV>>|
            file_items(*final(file)) == #[trigger] with_block(
                file_items(*old(file)),
                i as int,
                t as int,
                stmts,
            ) && block_rewritten(
                statements_at(file_items(*old(file)), i as int, t as int),
                stmts,
                views(changes@),
            ),
{
    let ghost items = file_items(*file);
    let ghost stmts = statements_at(items, i as int, t as int);
    let ghost mut now = stmts;
    let mut s: usize = 0;
    proof {
        lemma_same_block(items, i as int, t as int);
    }
    while s < n
        invariant
            s <= n,
            n == stmts.len(),
            has_tree(items, i as int, t as int),
            block_at(body_at(items, i as int), t as int),
            stmts == statements_at(items, i as int, t as int),
            now.len() == stmts.len(),
            file_items(*file) == with_block(items, i as int, t as int, now),
            forall|j: int|
                0 <= j < s ==> statement_rewritten(stmts[j], #[trigger] now[j], views(changes@)),
            forall|j: int| s <= j < n ==> #[trigger] now[j] == stmts[j],
        decreases n - s,
    {
        let ghost current = file_items(*file);
        assert(statements_at(current, i as int, t as int) == now);
        assert(now[s as int] == stmts[s as int]);
        if let Some(item) = statement(file, i, t, s) {
            edit_statement(file, i, t, s, &item, changes);
            proof {
                let c = choose|c: ConstItemV|
                    file_items(*file) == #[trigger] with_statement(
                        current,
                        i as int,
                        t as int,
                        s as int,
                        c,
                    ) && const_rewritten(now[s as int]->0, c, views(changes@));
                let next = now.update(s as int, Some(c));
                lemma_block_again(items, i as int, t as int, now, next);
                now = next;
            }
        }
        s += 1;
    }
    assert(block_rewritten(stmts, now, views(changes@)));
}

proof fn lemma_block_again(
    items: Seq<ItemV>,
    i: int,
    t: int,
    first: Seq<Option<ConstItemV>>,
    last: Seq<Option<ConstItemV>>,
)
    requires
        has_tree(items, i, t),
    ensures
        with_block(with_block(items, i, t, first), i, t, last) == with_block(items, i, t, last),
{
    let once = body_at(items, i).update(t, TreeV::Brace(Some(first)));
    assert(once.update(t, TreeV::Brace(Some(last))) =~= body_at(items, i).update(
        t,
        TreeV::Brace(Some(last)),
    ));
    assert(with_block(with_block(items, i, t, first), i, t, last) =~= with_block(
        items,
        i,
        t,
        last,
    ));
}

/// Rewrites the constants in the blocks at the given positions of a macro's body.
fn edit_macro(file: &mut syn::File, i: usize, at: &Vec<usize>, changes: &Vec<Const>)
    requires
        i < file_items(*old(file)).len(),
        file_items(*old(file))[i as int] is Macro,
        blocks(body_at(file_items(*old(file)), i as int)) == Some(
            at@.map_values(|p: usize| p as int),
        ),
    ensures
        exists|body: Seq<TreeV>|
            file_items(*final(file)) == #[trigger] with_body(
                file_items(*old(file)),
                i as int,
                body,
            ) && body_rewritten(
                body_at(file_items(*old(file)), i as int),
                body,
                at@.map_values(|p: usize| p as int),
                views(changes@),
            ),
{
    let ghost items = file_items(*file);
    let ghost body = body_at(items, i as int);
    let ghost places = at@.map_values(|p: usize| p as int);
    let ghost mut now = body;
    let mut b: usize = 0;
    proof {
        lemma_blocks(body);
        assert forall|j: int| 0 <= j < places.len() implies block_at(
            body,
            #[trigger] places[j],
        ) by {
            assert(blocks(body)->0[j] == places[j]);
        }
        assert forall|j: int, k: int| 0 <= j < k < places.len() implies #[trigger] places[j]
            < #[trigger] places[k] by {
            assert(blocks(body)->0[j] < blocks(body)->0[k]);
        }
        assert(with_body(items, i as int, body) =~= items);
    }
    while b < at.len()
        invariant
            b <= at@.len(),
            i < items.len(),
            items[i as int] is Macro,
            body == body_at(items, i as int),
            places == at@.map_values(|p: usize| p as int),
            forall|j: int| 0 <= j < places.len() ==> block_at(body, #[trigger] places[j]),
            forall|j: int, k: int|
                0 <= j < k < places.len() ==> #[trigger] places[j] < #[trigger] places[k],
            now.len() == body.len(),
            file_items(*file) == with_body(items, i as int, now),
            forall|t: int|
                0 <= t < body.len() ==> if places.take(b as int).contains(t) {
                    tree_rewritten(body[t], #[trigger] now[t], views(changes@))
                } else {
                    now[t] == body[t]
                },
        decreases at@.len() - b,
    {
        let ghost current = file_items(*file);
        let ghost p = places[b as int];
        let ghost before = places.take(b as int);
        let ghost after = places.take(b + 1);
        assert(block_at(body, p));
        assert(!before.contains(p)) by {
            if before.contains(p) {
                let j = before.index_of(p);
                assert(places[j] < places[b as int]);
            }
        }
        assert(now[p] == body[p]);
        assert(body_at(current, i as int) == now);
        if let Some(count) = block_statements(file, i, at[b]) {
            edit_block(file, i, at[b], count, changes);
            proof {
                let stmts = choose|stmts: Seq<Option<ConstItemV>>|
                    file_items(*file) == #[trigger] with_block(current, i as int, p, stmts)
                        && block_rewritten(
                        statements_at(current, i as int, p),
                        stmts,
                        views(changes@),
                    );
                let next = now.update(p, TreeV::Brace(Some(stmts)));
                assert(with_body(current, i as int, next) =~= with_body(items, i as int, next));
                assert(after =~= before.push(p));
                assert forall|t: int| 0 <= t < body.len() implies if after.contains(t) {
                    tree_rewritten(body[t], #[trigger] next[t], views(changes@))
                } else {
                    next[t] == body[t]
                } by {
                    if t == p {
                        assert(after[b as int] == p);
                    } else {
                        assert(now[t] == next[t]);
                        if after.contains(t) {
                            let j = after.index_of(t);
                            assert(before[j] == t);
                        } else if before.contains(t) {
                            let j = before.index_of(t);
                            assert(after[j] == t);
                        }
                    }
                }
                now = next;
            }
        }
        b += 1;
    }
    assert(places.take(at@.len() as int) =~= places);
    assert(body_rewritten(body, now, places, views(changes@)));
}

/// Rewrites the constants of a parsed file that the changes are about: those that
/// have the identifier and the start of one of them. Each is given a notice, or
/// has its `deprecated` attribute removed.
pub fn edit_file(file: &mut syn::File, changes: &Vec<Const>)
    ensures
        rewritten(file_items(*old(file)), file_items(*final(file)), views(changes@)),
{
    let ghost items = file_items(*file);
    let n: usize = item_count(file);
    let mut i: usize = 0;
    while i < n
        invariant
            i <= n,
            n == items.len(),
            file_items(*file).len() == items.len(),
            forall|j: int|
                0 <= j < i ==> item_rewritten(
                    items[j],
                    #[trigger] file_items(*file)[j],
                    views(changes@),
                ),
            forall|j: int| i <= j < n ==> #[trigger] file_items(*file)[j] == items[j],
        decreases n - i,
    {
        let ghost current = file_items(*file);
        assert(current[i as int] == items[i as int]);
        if let Some(item) = const_item(file, i) {
            edit_const(file, i, &item, changes);
            assert(forall|j: int|
                0 <= j < n && j != i ==> #[trigger] file_items(*file)[j] == current[j]);
        } else if let Some(head) = macro_head(file, i) {
            let chained: Option<Vec<usize>> = if !head.named && is_cfg_if_head(&head) {
                find_chain(&read_tokens(file, i, head.trees))
            } else {
                None
            };
            if let Some(at) = chained {
                edit_macro(file, i, &at, changes);
                assert(forall|j: int|
                    0 <= j < n && j != i ==> #[trigger] file_items(*file)[j] == current[j]);
            }
        }
        assert(item_rewritten(items[i as int], file_items(*file)[i as int], views(changes@)));
        i += 1;
    }
}

/// Rewrites the constants of a source file, if that parses.
pub fn edit_source(contents: &str, changes: &Vec<Const>) -> (r: Option<syn::File>)
    ensures
        match r {
            Some(file) => {
                &&& parsed_source(contents@) is Some
                &&& rewritten(parsed_source(contents@)->0, file_items(file), views(changes@))
            },
            None => parsed_source(contents@) is None,
        },
{
    match syn::parse_file(contents) {
        Ok(parsed) => {
            let mut file: syn::File = parsed;
            edit_file(&mut file, changes);
            Some(file)
        },
        Err(_) => None,
    }
}

/// A constant that was given a notice reads as deprecated.
pub proof fn law_deprecated_reads_so(c: ConstItemV, attrs: Seq<AttrV>)
    ensures
        says_deprecated((ConstItemV { attrs: remarked(attrs, true), ..c }).head().paths),
{
    let after = ConstItemV { attrs: remarked(attrs, true), ..c };
    assert(after.head().paths[attrs.len() as int] == Some("deprecated"@));
}

/// A constant whose only `deprecated` attribute was removed does not read as
/// deprecated.
pub proof fn law_undeprecated_reads_so(c: ConstItemV, attrs: Seq<AttrV>)
    requires
        forall|a: int, b: int|
            0 <= a < b < attrs.len() && (#[trigger] attrs[a]).path == Some("deprecated"@) ==> (
            #[trigger] attrs[b]).path != Some("deprecated"@),
    ensures
        !says_deprecated((ConstItemV { attrs: remarked(attrs, false), ..c }).head().paths),
{
    let after = ConstItemV { attrs: remarked(attrs, false), ..c };
    lemma_first_found(attrs);
    let paths = after.head().paths;
    if says_deprecated(paths) {
        let b = paths.index_of(Some("deprecated"@));
        assert(paths[b] == after.attrs[b].path);
        match first_deprecated(attrs) {
            Some(a) => {
                let from = if b == a {
                    attrs.len() - 1
                } else {
                    b
                };
                assert(after.attrs[b] == attrs[from]);
                assert(attrs[a].path == Some("deprecated"@));
            },
            None => {
                assert(after.attrs[b] == attrs[b]);
            },
        }
    }
}

pub proof fn lemma_first_found(attrs: Seq<AttrV>)
    ensures
        match first_deprecated(attrs) {
            Some(a) => {
                &&& 0 <= a < attrs.len()
                &&& attrs[a].path == Some("deprecated"@)
                &&& forall|b: int| 0 <= b < a ==> (#[trigger] attrs[b]).path != Some("deprecated"@)
            },
            None => forall|b: int|
                0 <= b < attrs.len() ==> (#[trigger] attrs[b]).path != Some("deprecated"@),
        },
    decreases attrs.len(),
{
    if attrs.len() > 0 {
        let shorter = attrs.drop_last();
        lemma_first_found(shorter);
        assert(forall|b: int| 0 <= b < shorter.len() ==> #[trigger] shorter[b] == attrs[b]);
        if first_deprecated(attrs) is Some {
            let a = first_deprecated(attrs)->0;
            assert forall|b: int| 0 <= b < a implies (#[trigger] attrs[b]).path != Some(
                "deprecated"@,
            ) by {
                assert(shorter[b] == attrs[b]);
            }
        } else {
            assert forall|b: int| 0 <= b < attrs.len() implies (#[trigger] attrs[b]).path != Some(
                "deprecated"@,
            ) by {
                if b < shorter.len() {
                    assert(shorter[b] == attrs[b]);
                }
            }
        }
    }
}

/// Undeprecating a constant right after it was deprecated restores its
/// attributes.
pub proof fn law_notice_undone(attrs: Seq<AttrV>)
    requires
        first_deprecated(attrs) is None,
    ensures
        remarked(remarked(attrs, true), false) == attrs,
{
    let after = attrs.push(notice());
    assert(after.drop_last() =~= attrs);
    assert(first_deprecated(after) == Some(attrs.len() as int));
    assert(swap_removed(after, attrs.len() as int) =~= attrs);
}

/// A file is not touched where the changes are about none of its constants.
pub proof fn law_no_changes(before: Seq<ItemV>, after: Seq<ItemV>)
    requires
        rewritten(before, after, Seq::empty()),
    ensures
        after == before,
{
    assert forall|i: int| 0 <= i < before.len() implies #[trigger] after[i] == before[i] by {
        assert(item_rewritten(before[i], after[i], Seq::empty()));
        if let ItemV::Macro(m) = before[i] {
            if editable(m) {
                let at = blocks(m.body)->0;
                let body = after[i]->Macro_0.body;
                lemma_blocks(m.body);
                assert forall|t: int| 0 <= t < m.body.len() implies #[trigger] body[t]
                    == m.body[t] by {
                    if at.contains(t) {
                        assert(tree_rewritten(m.body[t], body[t], Seq::empty()));
                        let j = at.index_of(t);
                        assert(block_at(m.body, blocks(m.body)->0[j]));
                        let stmts = m.body[t]->Brace_0->0;
                        let now = body[t]->Brace_0->0;
                        assert forall|s: int| 0 <= s < stmts.len() implies #[trigger] now[s]
                            == stmts[s] by {
                            assert(statement_rewritten(stmts[s], now[s], Seq::empty()));
                        }
                        assert(now =~= stmts);
                    }
                }
                assert(body =~= m.body);
            }
        }
    }
    assert(after =~= before);
}

/// Whether each of the constants in `after` is what the changes make of the one in
/// `before`.
pub open spec fn consts_rewritten(
    before: Seq<ConstItemV>,
    after: Seq<ConstItemV>,
    changes: Seq<ConstV>,
) -> bool {
    &&& after.len() == before.len()
    &&& forall|k: int|
        0 <= k < before.len() ==> const_rewritten(before[k], #[trigger] after[k], changes)
}

proof fn lemma_block_reads(
    before: Seq<Option<ConstItemV>>,
    after: Seq<Option<ConstItemV>>,
    changes: Seq<ConstV>,
)
    requires
        block_rewritten(before, after, changes),
    ensures
        consts_rewritten(block_constants(before), block_constants(after), changes),
    decreases before.len(),
{
    if before.len() > 0 {
        let b = before.drop_last();
        let a = after.drop_last();
        assert forall|s: int| 0 <= s < b.len() implies statement_rewritten(
            b[s],
            #[trigger] a[s],
            changes,
        ) by {
            assert(statement_rewritten(before[s], after[s], changes));
        }
        lemma_block_reads(b, a, changes);
        assert(statement_rewritten(before.last(), after[after.len() - 1], changes));
    }
}

proof fn lemma_chain_reads(
    before: Seq<TreeV>,
    after: Seq<TreeV>,
    at: Seq<int>,
    changes: Seq<ConstV>,
)
    requires
        forall|j: int|
            0 <= j < at.len() ==> block_at(before, #[trigger] at[j]) && tree_rewritten(
                before[at[j]],
                after[at[j]],
                changes,
            ),
    ensures
        consts_rewritten(chain_constants(before, at), chain_constants(after, at), changes),
    decreases at.len(),
{
    if at.len() > 0 {
        let shorter = at.drop_last();
        assert forall|j: int| 0 <= j < shorter.len() implies block_at(before, #[trigger] shorter[j])
            && tree_rewritten(before[shorter[j]], after[shorter[j]], changes) by {
            assert(shorter[j] == at[j]);
        }
        lemma_chain_reads(before, after, shorter, changes);
        assert(at.last() == at[at.len() - 1]);
        lemma_block_reads(
            before[at.last()]->Brace_0->0,
            after[at.last()]->Brace_0->0,
            changes,
        );
    }
}

proof fn lemma_item_reads(before: ItemV, after: ItemV, changes: Seq<ConstV>)
    requires
        item_rewritten(before, after, changes),
        item_constants(before) is Some,
        is_cfg_if(before) ==> !before->Macro_0.named,
    ensures
        item_constants(after) is Some,
        consts_rewritten(item_constants(before)->0, item_constants(after)->0, changes),
{
    if let ItemV::Macro(m) = before {
        if is_cfg_if(before) {
            let at = blocks(m.body)->0;
            let body = after->Macro_0.body;
            lemma_blocks(m.body);
            assert forall|t: int| 0 <= t < m.body.len() implies token(#[trigger] body[t]) == token(
                m.body[t],
            ) by {
                if at.contains(t) {
                    assert(tree_rewritten(m.body[t], body[t], changes));
                    let j = at.index_of(t);
                    assert(block_at(m.body, blocks(m.body)->0[j]));
                }
            }
            assert(outline(body) =~= outline(m.body));
            assert forall|j: int| 0 <= j < at.len() implies block_at(m.body, #[trigger] at[j])
                && tree_rewritten(m.body[at[j]], body[at[j]], changes) by {
                assert(block_at(m.body, blocks(m.body)->0[j]));
                assert(at.contains(at[j]));
            }
            lemma_chain_reads(m.body, body, at, changes);
        }
    }
}

/// What was written is what is read: of a file that was rewritten, the same
/// constants are found as before, in the same order, each as the changes make it.
/// In a `cfg_if` macro that is given a name constants are found, but not
/// rewritten.
pub proof fn law_rewritten_reads_back(before: Seq<ItemV>, after: Seq<ItemV>, changes: Seq<ConstV>)
    requires
        rewritten(before, after, changes),
        items_constants(before) is Some,
        forall|i: int|
            0 <= i < before.len() && is_cfg_if(#[trigger] before[i]) ==> !before[i]->Macro_0.named,
    ensures
        items_constants(after) is Some,
        consts_rewritten(items_constants(before)->0, items_constants(after)->0, changes),
    decreases before.len(),
{
    if before.len() > 0 {
        let b = before.drop_last();
        let a = after.drop_last();
        assert forall|i: int| 0 <= i < b.len() implies item_rewritten(
            b[i],
            #[trigger] a[i],
            changes,
        ) by {
            assert(item_rewritten(before[i], after[i], changes));
        }
        assert forall|i: int|
            0 <= i < b.len() && is_cfg_if(#[trigger] b[i]) implies !b[i]->Macro_0.named by {
            assert(is_cfg_if(before[i]));
        }
        law_rewritten_reads_back(b, a, changes);
        assert(item_rewritten(before.last(), after[after.len() - 1], changes));
        assert(before.last() == before[before.len() - 1]);
        lemma_item_reads(before.last(), after.last(), changes);
    }
}

/// The changes are what a later look at the file finds: of each constant that they
/// are about, whether it is deprecated is what they say, and of the others it is
/// what it was. A constant with several `deprecated` attributes only loses one.
pub proof fn law_changes_read_back(
    before: Seq<ItemV>,
    after: Seq<ItemV>,
    changes: Seq<ConstV>,
    source: Seq<char>,
    k: int,
)
    requires
        rewritten(before, after, changes),
        items_constants(before) is Some,
        forall|i: int|
            0 <= i < before.len() && is_cfg_if(#[trigger] before[i]) ==> !before[i]->Macro_0.named,
        0 <= k < items_constants(before)->0.len(),
        forall|a: int, b: int|
            0 <= a < b < items_constants(before)->0[k].attrs.len() && (
            #[trigger] items_constants(before)->0[k].attrs[a]).path == Some("deprecated"@) ==> (
            #[trigger] items_constants(before)->0[k].attrs[b]).path != Some("deprecated"@),
    ensures
        items_constants(after) is Some,
        items_constants(after)->0.len() == items_constants(before)->0.len(),
        ({
            let was = constants_of(items_constants(before)->0, source)[k];
            let is = constants_of(items_constants(after)->0, source)[k];
            &&& is.ident == was.ident
            &&& is.deprecated == (match verdict(changes, was.ident, was.span) {
                Some(yes) => yes,
                None => was.deprecated,
            })
        }),
{
    law_rewritten_reads_back(before, after, changes);
    let b = items_constants(before)->0[k];
    let a = items_constants(after)->0[k];
    assert(const_rewritten(b, a, changes));
    if let Some(yes) = verdict(changes, b.ident, b.span) {
        let now = ConstItemV { attrs: remarked(b.attrs, yes), ..b };
        assert(a.head().paths == now.head().paths);
        if yes {
            law_deprecated_reads_so(b, b.attrs);
        } else {
            law_undeprecated_reads_so(b, b.attrs);
        }
    }
}

/// Of constants that differ in identifier or start, each decides for itself.
pub proof fn lemma_verdict_own(changes: Seq<ConstV>, ident: Seq<char>, span: LineColumn)
    ensures
        match verdict(changes, ident, span) {
            Some(yes) => exists|m: int|
                0 <= m < changes.len() && (#[trigger] changes[m]).ident == ident && changes[m].span
                    == span && changes[m].deprecated == yes,
            None => forall|m: int|
                0 <= m < changes.len() ==> (#[trigger] changes[m]).ident != ident
                    || changes[m].span != span,
        },
    decreases changes.len(),
{
    if changes.len() > 0 {
        let shorter = changes.drop_last();
        lemma_verdict_own(shorter, ident, span);
        assert(forall|m: int| 0 <= m < shorter.len() ==> #[trigger] shorter[m] == changes[m]);
        match verdict(shorter, ident, span) {
            Some(yes) => {
                let m = choose|m: int|
                    0 <= m < shorter.len() && (#[trigger] shorter[m]).ident == ident
                        && shorter[m].span == span && shorter[m].deprecated == yes;
                assert(changes[m] == shorter[m]);
            },
            None => {
                let last = changes.len() - 1;
                assert(changes[last] == changes.last());
                assert forall|m: int|
                    0 <= m < changes.len() && !(changes.last().ident == ident
                        && changes.last().span == span) implies (#[trigger] changes[m]).ident
                    != ident || changes[m].span != span by {
                    if m < last {
                        assert(shorter[m] == changes[m]);
                    }
                }
            },
        }
    }
}

} // verus!
