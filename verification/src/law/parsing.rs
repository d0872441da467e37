//! Which constants are found in a source file.

use crate::constant::ConstV;
use crate::parser::{
    attrs_end, block_constants, blocks, chain, chain_constants, constants_of, contained,
    files_constants, item_constants, items_constants, lemma_blocks, outline, token, SourceFile,
    TokenV,
};
use crate::syntax::{parsed_source, AttrV, ConstItemV, ItemV, TreeV};
use vstd::prelude::*;

verus! {

/// The constants that are found in a block are those among its statements: all of
/// them, each as often as it stands there, and in order.
pub proof fn law_block_constants(stmts: Seq<Option<ConstItemV>>)
    ensures
        forall|s: int|
            0 <= s < stmts.len() && (#[trigger] stmts[s]) is Some ==> block_constants(
                stmts,
            ).contains(stmts[s]->0),
        forall|k: int|
            0 <= k < block_constants(stmts).len() ==> stmts.contains(
                Some(#[trigger] block_constants(stmts)[k]),
            ),
        block_constants(stmts).len() == stmts.filter(|x: Option<ConstItemV>| x is Some).len(),
        block_constants(stmts) == stmts.filter_map(|x: Option<ConstItemV>| x),
    decreases stmts.len(),
{
    reveal(Seq::filter);
    let found = block_constants(stmts);
    if stmts.len() > 0 {
        let shorter = stmts.drop_last();
        let before = block_constants(shorter);
        law_block_constants(shorter);
        assert(found =~= stmts.filter_map(|x: Option<ConstItemV>| x));
        assert forall|s: int| 0 <= s < stmts.len() && (
        #[trigger] stmts[s]) is Some implies found.contains(stmts[s]->0) by {
            if s < shorter.len() {
                assert(shorter[s] == stmts[s]);
                let k = before.index_of(stmts[s]->0);
                assert(found[k] == before[k]);
            } else {
                assert(found[found.len() - 1] == stmts[s]->0);
            }
        }
        assert forall|k: int| 0 <= k < found.len() implies stmts.contains(
            Some(#[trigger] found[k]),
        ) by {
            if k < before.len() {
                assert(found[k] == before[k]);
                let s = shorter.index_of(Some(before[k]));
                assert(stmts[s] == Some(found[k]));
            } else {
                assert(stmts[stmts.len() - 1] == Some(found[k]));
            }
        }
    }
}

/// A condition: the word `if`, some attributes, and a block.
pub open spec fn condition(attrs: nat) -> Seq<TokenV> {
    seq![TokenV::Word("if"@)] + attributes(attrs) + seq![TokenV::Brace(true)]
}

/// Some attributes.
pub open spec fn attributes(n: nat) -> Seq<TokenV>
    decreases n,
{
    if n == 0 {
        Seq::empty()
    } else {
        seq![TokenV::Mark('#'), TokenV::Bracket(true)] + attributes((n - 1) as nat)
    }
}

/// Conditions with the given numbers of attributes, with `else` between them, and
/// after them, where there is a last block.
pub open spec fn conditions(attrs: Seq<nat>, last: bool) -> Seq<TokenV>
    decreases attrs.len(),
{
    if attrs.len() == 0 {
        Seq::empty()
    } else {
        condition(attrs[0]) + (if attrs.len() > 1 {
            seq![TokenV::Word("else"@)] + conditions(attrs.skip(1), last)
        } else if last {
            seq![TokenV::Word("else"@), TokenV::Brace(true)]
        } else {
            Seq::empty()
        })
    }
}

proof fn lemma_attributes(body: Seq<TokenV>, from: int, n: nat)
    requires
        0 <= from,
        from + 2 * n < body.len(),
        body.subrange(from, from + 2 * n) == attributes(n),
        body[from + 2 * n] != TokenV::Mark('#'),
    ensures
        attrs_end(body, from) == Some(from + 2 * n),
    decreases n,
{
    if n > 0 {
        let part = body.subrange(from, from + 2 * n);
        assert(part[0] == TokenV::Mark('#'));
        assert(part[1] == TokenV::Bracket(true));
        assert(body[from] == part[0]);
        assert(body[from + 1] == part[1]);
        assert(body.subrange(from + 2, from + 2 + 2 * (n - 1)) =~= part.skip(2));
        assert(part.skip(2) =~= attributes((n - 1) as nat));
        lemma_attributes(body, from + 2, (n - 1) as nat);
    }
}

proof fn lemma_attributes_len(n: nat)
    ensures
        attributes(n).len() == 2 * n,
    decreases n,
{
    if n > 0 {
        lemma_attributes_len((n - 1) as nat);
    }
}

proof fn lemma_conditions_accepted(front: Seq<TokenV>, attrs: Seq<nat>, last: bool)
    requires
        attrs.len() > 0,
    ensures
        chain(front + conditions(attrs, last), front.len() as int) is Some,
    decreases attrs.len(),
{
    reveal_strlit("if");
    reveal_strlit("else");
    let text = conditions(attrs, last);
    let body = front + text;
    let from = front.len() as int;
    let n = attrs[0];
    let p = from + 1 + 2 * n;
    lemma_attributes_len(n);
    assert(condition(n).len() == 2 * n + 2);
    assert(body[from] == text[0]);
    assert(body.subrange(from + 1, p) =~= attributes(n)) by {
        assert forall|i: int| 0 <= i < 2 * n implies body[from + 1 + i] == attributes(n)[i] by {
            assert(text[1 + i] == condition(n)[1 + i]);
        }
    }
    assert(body[p] == text[p - from]);
    assert(text[p - from] == condition(n)[p - from]);
    lemma_attributes(body, from + 1, n);
    if attrs.len() > 1 {
        let rest = conditions(attrs.skip(1), last);
        let longer = front + condition(n) + seq![TokenV::Word("else"@)];
        assert(body =~= longer + rest);
        lemma_conditions_accepted(longer, attrs.skip(1), last);
        assert(longer.len() == p + 2);
        assert(body[p + 1] == TokenV::Word("else"@));
        lemma_attributes_len(attrs.skip(1)[0]);
        assert(rest[0] == TokenV::Word("if"@));
        assert(body[p + 2] == rest[0]);
    } else if last {
        assert(body[p + 1] == TokenV::Word("else"@));
        assert(body[p + 2] == TokenV::Brace(true));
    }
}

proof fn lemma_attributes_only(body: Seq<TokenV>, from: int)
    requires
        0 <= from <= body.len(),
        attrs_end(body, from) is Some,
    ensures
        from <= attrs_end(body, from)->0 <= body.len(),
        exists|n: nat|
            attrs_end(body, from)->0 == from + 2 * n && body.subrange(
                from,
                from + 2 * n,
            ) == #[trigger] attributes(n),
        forall|t: int|
            from <= t < attrs_end(body, from)->0 ==> !((#[trigger] body[t]) is Brace),
    decreases body.len() - from,
{
    if from < body.len() && body[from] == TokenV::Mark('#') {
        lemma_attributes_only(body, from + 2);
        let m = choose|n: nat|
            attrs_end(body, from + 2)->0 == from + 2 + 2 * n && body.subrange(
                from + 2,
                from + 2 + 2 * n,
            ) == #[trigger] attributes(n);
        lemma_attributes_len(m);
        let n = m + 1;
        assert(body.subrange(from, from + 2 * n) =~= attributes(n)) by {
            let rest = body.subrange(from + 2, from + 2 + 2 * m);
            assert forall|i: int| 0 <= i < 2 * n implies body[from + i] == attributes(n)[i] by {
                if i >= 2 {
                    assert(rest[i - 2] == body[from + i]);
                    assert(attributes(n)[i] == attributes(m)[i - 2]);
                }
            }
            lemma_attributes_len(n);
        }
    } else {
        assert(body.subrange(from, from) =~= attributes(0));
    }
}

proof fn lemma_conditions_only(body: Seq<TokenV>, from: int)
    requires
        0 <= from <= body.len(),
        chain(body, from) is Some,
    ensures
        exists|attrs: Seq<nat>, last: bool|
            attrs.len() > 0 && body.skip(from) == #[trigger] conditions(attrs, last),
        forall|t: int|
            from <= t < body.len() ==> (chain(body, from)->0.contains(t)
                <==> (#[trigger] body[t]) is Brace),
        forall|j: int|
            0 <= j < chain(body, from)->0.len() ==> from < #[trigger] chain(body, from)->0[j],
    decreases body.len() - from,
{
    lemma_attributes_only(body, from + 1);
    let found = chain(body, from)->0;
    let p = attrs_end(body, from + 1)->0;
    let n = choose|n: nat|
        p == from + 1 + 2 * n && body.subrange(from + 1, from + 1 + 2 * n) == #[trigger] attributes(
            n,
        );
    lemma_attributes_len(n);
    assert(body.subrange(from, p + 1) =~= condition(n)) by {
        let middle = body.subrange(from + 1, from + 1 + 2 * n);
        assert forall|i: int| 0 <= i < 2 * n + 2 implies body[from + i] == condition(n)[i] by {
            if 0 < i < 2 * n + 1 {
                assert(middle[i - 1] == body[from + i]);
            }
        }
    }
    if p + 1 == body.len() {
        assert(found == seq![p]);
        assert(found[0] == p);
        assert(body.skip(from) =~= condition(n));
        assert(conditions(seq![n], false) =~= condition(n));
    } else if word_follows(body, p + 2) {
        lemma_conditions_only(body, p + 2);
        let (rest, last) = choose|attrs: Seq<nat>, last: bool|
            attrs.len() > 0 && body.skip(p + 2) == #[trigger] conditions(attrs, last);
        let all = seq![n] + rest;
        assert(all.skip(1) =~= rest);
        assert(body.skip(from) =~= body.subrange(from, p + 1) + seq![body[p + 1]] + body.skip(
            p + 2,
        ));
        assert(conditions(all, last) =~= body.skip(from));
        let later = chain(body, p + 2)->0;
        assert(found == seq![p] + later);
        assert forall|t: int| from <= t < body.len() implies (found.contains(t)
            <==> (#[trigger] body[t]) is Brace) by {
            if t >= p + 2 {
                if later.contains(t) {
                    assert(found[later.index_of(t) + 1] == t);
                }
                if found.contains(t) {
                    let j = found.index_of(t);
                    assert(later[j - 1] == t);
                }
            } else {
                assert(found[0] == p);
                if found.contains(t) && t != p {
                    let j = found.index_of(t);
                    assert(later[j - 1] == t);
                }
            }
        }
    } else {
        assert(found == seq![p, p + 2]);
        assert(found[0] == p && found[1] == p + 2);
        assert(conditions(seq![n], true) =~= body.skip(from));
    }
}

/// Whether the chain goes on with a condition.
spec fn word_follows(body: Seq<TokenV>, at: int) -> bool {
    0 <= at < body.len() && body[at] == TokenV::Word("if"@)
}

/// The body of a macro is one that constants are found in if it is a chain of
/// conditions: blocks behind `if` and attributes, with `else` between them, and
/// with or without a last block behind `else`. Nothing else is.
pub proof fn law_grammar(body: Seq<TreeV>)
    ensures
        blocks(body) is Some <==> exists|attrs: Seq<nat>, last: bool|
            attrs.len() > 0 && #[trigger] conditions(attrs, last) == body.map_values(
                |tree: TreeV|
                    match tree {
                        TreeV::Word(word) => TokenV::Word(word),
                        TreeV::Mark(mark) => TokenV::Mark(mark),
                        TreeV::Bracket(attribute) => TokenV::Bracket(attribute),
                        TreeV::Brace(block) => TokenV::Brace(block is Some),
                        TreeV::Other => TokenV::Other,
                    },
            ),
{
    let text = outline(body);
    assert(text =~= body.map_values(
        |tree: TreeV|
            match tree {
                TreeV::Word(word) => TokenV::Word(word),
                TreeV::Mark(mark) => TokenV::Mark(mark),
                TreeV::Bracket(attribute) => TokenV::Bracket(attribute),
                TreeV::Brace(block) => TokenV::Brace(block is Some),
                TreeV::Other => TokenV::Other,
            },
    ));
    if blocks(body) is Some {
        lemma_conditions_only(text, 0);
        assert(text.skip(0) =~= text);
    }
    assert forall|attrs: Seq<nat>, last: bool|
        attrs.len() > 0 && #[trigger] conditions(attrs, last) == text implies blocks(
        body,
    ) is Some by {
        lemma_conditions_accepted(Seq::empty(), attrs, last);
        assert(Seq::<TokenV>::empty() + text =~= text);
    }
}

/// Of such a body every group in braces is a block that constants are found in,
/// in order.
pub proof fn law_all_blocks(body: Seq<TreeV>)
    requires
        blocks(body) is Some,
    ensures
        forall|t: int|
            0 <= t < body.len() ==> (blocks(body)->0.contains(t) <==> (
            #[trigger] body[t]) is Brace),
        forall|t: int|
            0 <= t < body.len() && (#[trigger] body[t]) is Brace ==> body[t]->Brace_0 is Some,
        forall|j: int|
            0 <= j < blocks(body)->0.len() ==> 0 <= #[trigger] blocks(body)->0[j] < body.len(),
        forall|j: int, k: int|
            0 <= j < k < blocks(body)->0.len() ==> #[trigger] blocks(body)->0[j]
                < #[trigger] blocks(body)->0[k],
{
    let text = outline(body);
    let at = blocks(body)->0;
    lemma_conditions_only(text, 0);
    lemma_blocks(body);
    assert forall|t: int| 0 <= t < body.len() implies (at.contains(t) <==> (
    #[trigger] body[t]) is Brace) by {
        assert(text[t] == token(body[t]));
        assert(chain(text, 0)->0.contains(t) <==> text[t] is Brace);
    }
    assert forall|t: int| 0 <= t < body.len() && (
    #[trigger] body[t]) is Brace implies body[t]->Brace_0 is Some by {
        let j = at.index_of(t);
        assert(at[j] == t);
        assert(blocks(body)->0[j] == t);
    }
}

/// The constants that stand in the braces of a macro's body.
pub open spec fn in_braces(body: Seq<TreeV>) -> Seq<ConstItemV> {
    body.map_values(
        |tree: TreeV|
            match tree {
                TreeV::Brace(Some(stmts)) => stmts.filter_map(|x: Option<ConstItemV>| x),
                _ => Seq::empty(),
            },
    ).flatten_alt()
}

/// The constants that stand in an item: the item itself, or what is in the braces
/// of a `cfg_if` macro.
pub open spec fn standing_in(item: ItemV) -> Seq<ConstItemV> {
    match item {
        ItemV::Const(c) => seq![c],
        ItemV::Macro(m) => if m.path == Some("cfg_if"@) {
            in_braces(m.body)
        } else {
            Seq::empty()
        },
        ItemV::Other => Seq::empty(),
    }
}

proof fn lemma_in_braces(body: Seq<TreeV>, n: int, j: int)
    requires
        blocks(body) is Some,
        0 <= n <= body.len(),
        0 <= j <= blocks(body)->0.len(),
        forall|i: int| 0 <= i < j ==> #[trigger] blocks(body)->0[i] < n,
        forall|i: int| j <= i < blocks(body)->0.len() ==> n <= #[trigger] blocks(body)->0[i],
    ensures
        chain_constants(body, blocks(body)->0.take(j)) == in_braces(body.take(n)),
    decreases n,
{
    let at = blocks(body)->0;
    let pick = |tree: TreeV|
        match tree {
            TreeV::Brace(Some(stmts)) => stmts.filter_map(|x: Option<ConstItemV>| x),
            _ => Seq::empty(),
        };
    law_all_blocks(body);
    let lists = body.take(n).map_values(pick);
    if n == 0 {
        if j > 0 {
            assert(at[0] < 0);
        }
        assert(lists =~= Seq::empty());
        assert(chain_constants(body, at.take(0)) =~= Seq::empty());
    } else {
        let t = n - 1;
        assert(lists.drop_last() =~= body.take(t).map_values(pick));
        assert(lists.last() == pick(body[t]));
        if body[t] is Brace {
            assert(at.contains(t));
            let i = at.index_of(t);
            assert(at[i] == t);
            assert(i == j - 1) by {
                if i < j - 1 {
                    assert(at[i] < at[j - 1]);
                } else if i >= j {
                    assert(n <= at[i]);
                }
            }
            lemma_in_braces(body, t, j - 1);
            assert(at.take(j).drop_last() =~= at.take(j - 1));
            law_block_constants(body[t]->Brace_0->0);
        } else {
            assert forall|i: int| 0 <= i < j implies #[trigger] at[i] < t by {
                assert(at.contains(at[i]));
                assert(body[at[i]] is Brace);
            }
            lemma_in_braces(body, t, j);
            assert(in_braces(body.take(n)) =~= in_braces(body.take(t)));
        }
    }
}

proof fn lemma_item_exact(item: ItemV)
    requires
        item_constants(item) is Some,
    ensures
        item_constants(item)->0 == standing_in(item),
{
    if let ItemV::Macro(m) = item {
        if m.path == Some("cfg_if"@) {
            let at = blocks(m.body)->0;
            law_all_blocks(m.body);
            lemma_in_braces(m.body, m.body.len() as int, at.len() as int);
            assert(m.body.take(m.body.len() as int) =~= m.body);
            assert(at.take(at.len() as int) =~= at);
        }
    }
}

/// The constants that are found in a file are those that stand in its items, item
/// by item and block by block, in the order of the file. They are found unless the
/// body of a `cfg_if` macro is not a chain of conditions.
pub proof fn law_constants_exact(items: Seq<ItemV>)
    ensures
        items_constants(items) is Some <==> forall|i: int|
            0 <= i < items.len() && (#[trigger] items[i]) is Macro && items[i]->Macro_0.path
                == Some("cfg_if"@) ==> blocks(items[i]->Macro_0.body) is Some,
        items_constants(items) is Some ==> items_constants(items)->0 == items.map_values(
            |item: ItemV| standing_in(item),
        ).flatten_alt(),
    decreases items.len(),
{
    let pick = |item: ItemV| standing_in(item);
    let lists = items.map_values(pick);
    if items.len() == 0 {
        assert(lists =~= Seq::empty());
    } else {
        let shorter = items.drop_last();
        law_constants_exact(shorter);
        assert(lists.drop_last() =~= shorter.map_values(pick));
        assert(lists.last() == standing_in(items.last()));
        assert(items.last() == items[items.len() - 1]);
        assert(forall|i: int| 0 <= i < shorter.len() ==> #[trigger] shorter[i] == items[i]);
        if item_constants(items.last()) is Some {
            lemma_item_exact(items.last());
        }
        if items_constants(items) is Some {
            assert forall|i: int|
                0 <= i < items.len() && (#[trigger] items[i]) is Macro && items[i]->Macro_0.path
                    == Some("cfg_if"@) implies blocks(items[i]->Macro_0.body) is Some by {
                if i < shorter.len() {
                    assert(shorter[i] == items[i]);
                }
            }
        } else if items_constants(shorter) is None {
            let i = choose|i: int|
                0 <= i < shorter.len() && (#[trigger] shorter[i]) is Macro
                    && shorter[i]->Macro_0.path == Some("cfg_if"@)
                    && blocks(shorter[i]->Macro_0.body) is None;
            assert(items[i] == shorter[i]);
        }
    }
}

/// Every constant of a file is found: one that is an item of its own, and one in
/// any block of a `cfg_if` macro.
pub proof fn law_every_constant_found(items: Seq<ItemV>)
    requires
        items_constants(items) is Some,
    ensures
        forall|i: int|
            0 <= i < items.len() && (#[trigger] items[i]) is Const ==> items_constants(
                items,
            )->0.contains(items[i]->Const_0),
        forall|i: int, t: int, s: int|
            0 <= i < items.len() && items[i] is Macro && items[i]->Macro_0.path == Some("cfg_if"@)
                && 0 <= t < items[i]->Macro_0.body.len() && items[i]->Macro_0.body[t] is Brace && 0
                <= s < items[i]->Macro_0.body[t]->Brace_0->0.len() && (
            #[trigger] items[i]->Macro_0.body[t]->Brace_0->0[s]) is Some ==> items_constants(
                items,
            )->0.contains(items[i]->Macro_0.body[t]->Brace_0->0[s]->0),
    decreases items.len(),
{
    if items.len() > 0 {
        let shorter = items.drop_last();
        law_every_constant_found(shorter);
        let before = items_constants(shorter)->0;
        let last = item_constants(items.last())->0;
        let all = items_constants(items)->0;
        assert(forall|i: int| 0 <= i < shorter.len() ==> #[trigger] shorter[i] == items[i]);
        assert(items.last() == items[items.len() - 1]);
        assert forall|c: ConstItemV| #[trigger] before.contains(c) || last.contains(
            c,
        ) implies all.contains(c) by {
            if before.contains(c) {
                assert(all[before.index_of(c)] == c);
            } else {
                assert(all[before.len() + last.index_of(c)] == c);
            }
        }
        assert forall|i: int| 0 <= i < items.len() && (
        #[trigger] items[i]) is Const implies all.contains(items[i]->Const_0) by {
            if i < shorter.len() {
                assert(before.contains(shorter[i]->Const_0));
            } else {
                assert(items[i] == items.last());
                assert(last == seq![items[i]->Const_0]);
                assert(all[before.len() as int] == items[i]->Const_0);
            }
        }
        assert forall|i: int, t: int, s: int|
            0 <= i < items.len() && items[i] is Macro && items[i]->Macro_0.path == Some("cfg_if"@)
                && 0 <= t < items[i]->Macro_0.body.len() && items[i]->Macro_0.body[t] is Brace && 0
                <= s < items[i]->Macro_0.body[t]->Brace_0->0.len() && (
            #[trigger] items[i]->Macro_0.body[t]->Brace_0->0[s]) is Some implies all.contains(
            items[i]->Macro_0.body[t]->Brace_0->0[s]->0,
        ) by {
            let c = items[i]->Macro_0.body[t]->Brace_0->0[s]->0;
            if i < shorter.len() {
                assert(shorter[i]->Macro_0.body[t]->Brace_0->0[s] == Some(c));
                assert(before.contains(c));
            } else {
                let body = items[i]->Macro_0.body;
                let at = blocks(body)->0;
                law_all_blocks(body);
                assert(at.contains(t));
                law_block_constants(body[t]->Brace_0->0);
                lemma_chain_contains(body, at, at.index_of(t), c);
                assert(before.contains(c) || last.contains(c));
            }
        }
    }
}

proof fn lemma_chain_contains(body: Seq<TreeV>, at: Seq<int>, j: int, c: ConstItemV)
    requires
        0 <= j < at.len(),
        block_constants(body[at[j]]->Brace_0->0).contains(c),
    ensures
        chain_constants(body, at).contains(c),
    decreases at.len(),
{
    let before = chain_constants(body, at.drop_last());
    let last = block_constants(body[at.last()]->Brace_0->0);
    let all = chain_constants(body, at);
    if j < at.len() - 1 {
        lemma_chain_contains(body, at.drop_last(), j, c);
        assert(all[before.index_of(c)] == c);
    } else {
        assert(all[before.len() + last.index_of(c)] == c);
    }
}

/// Whether one of the attributes is `deprecated`.
pub open spec fn bears_deprecated(attrs: Seq<AttrV>) -> bool {
    exists|a: int| 0 <= a < attrs.len() && (#[trigger] attrs[a]).path == Some("deprecated"@)
}

/// A constant is found under its own name and where it starts, in the file that it
/// is in, and as deprecated if one of its attributes is `deprecated`, whichever of
/// them.
pub proof fn law_constant_as_it_stands(found: Seq<ConstItemV>, source: Seq<char>)
    ensures
        constants_of(found, source).len() == found.len(),
        forall|k: int|
            0 <= k < found.len() ==> (#[trigger] constants_of(found, source)[k]) == (ConstV {
                ident: found[k].ident,
                deprecated: bears_deprecated(found[k].attrs),
                span: found[k].span,
                source,
            }),
{
    assert forall|k: int| 0 <= k < found.len() implies (#[trigger] constants_of(
        found,
        source,
    )[k]) == (ConstV {
        ident: found[k].ident,
        deprecated: bears_deprecated(found[k].attrs),
        span: found[k].span,
        source,
    }) by {
        let attrs = found[k].attrs;
        let paths = found[k].head().paths;
        if bears_deprecated(attrs) {
            let a = choose|a: int|
                0 <= a < attrs.len() && (#[trigger] attrs[a]).path == Some("deprecated"@);
            assert(paths[a] == Some("deprecated"@));
        }
        if paths.contains(Some("deprecated"@)) {
            let a = paths.index_of(Some("deprecated"@));
            assert(attrs[a].path == Some("deprecated"@));
        }
    }
}

/// What the contents of a file hold is what stands in it: nothing if they do not
/// parse, and otherwise the constants of its items.
pub proof fn law_contained(contents: Seq<char>, path: Seq<char>)
    ensures
        contained(contents, path) is Some <==> parsed_source(contents) is Some
            && items_constants(parsed_source(contents)->0) is Some,
        contained(contents, path) is Some ==> {
            let found = items_constants(parsed_source(contents)->0)->0;
            &&& contained(contents, path)->0.len() == found.len()
            &&& forall|k: int|
                0 <= k < found.len() ==> (#[trigger] contained(contents, path)->0[k]) == (ConstV {
                    ident: found[k].ident,
                    deprecated: bears_deprecated(found[k].attrs),
                    span: found[k].span,
                    source: path,
                })
        },
{
    if contained(contents, path) is Some {
        law_constant_as_it_stands(items_constants(parsed_source(contents)->0)->0, path);
    }
}

/// The constants of several files are those of the one after those of the other.
pub proof fn law_files_append(a: Seq<SourceFile>, b: Seq<SourceFile>)
    ensures
        files_constants(a + b) == (match (files_constants(a), files_constants(b)) {
            (Some(x), Some(y)) => Some(x + y),
            _ => None,
        }),
    decreases b.len(),
{
    if b.len() == 0 {
        assert(a + b =~= a);
        if files_constants(a) is Some {
            assert(files_constants(a)->0 + Seq::empty() =~= files_constants(a)->0);
        }
    } else {
        assert((a + b).drop_last() =~= a + b.drop_last());
        law_files_append(a, b.drop_last());
        if files_constants(a + b) is Some {
            let found = constants_of(
                items_constants(b.last().items())->0,
                b.last().source(),
            );
            assert(files_constants(a)->0 + (files_constants(b.drop_last())->0 + found) =~= (
            files_constants(a)->0 + files_constants(b.drop_last())->0) + found);
        }
    }
}

/// The constants of one file are those that stand in it.
pub proof fn law_file_alone(file: SourceFile)
    ensures
        files_constants(seq![file]) is Some <==> items_constants(file.items()) is Some,
        files_constants(seq![file]) is Some ==> files_constants(seq![file])->0 == constants_of(
            items_constants(file.items())->0,
            file.source(),
        ),
{
    assert(seq![file].drop_last() =~= Seq::empty());
    assert(files_constants(Seq::empty()) == Some(Seq::<ConstV>::empty()));
    if items_constants(file.items()) is Some {
        let found = constants_of(items_constants(file.items())->0, file.source());
        assert(Seq::<ConstV>::empty() + found =~= found);
    }
}

} // verus!
