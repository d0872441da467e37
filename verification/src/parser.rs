//! Finds the constants of a source file.

use crate::constant::{Const, ConstV};
use crate::constant_container::{ConstContainer, EntryV};
use crate::edit::views;
use crate::syntax::{
    attribute_parses, block_statements, body_at, const_item, file_items, has_tree, item_count,
    macro_head, macro_tree, parsed_source, path_view, statement, statements_at, ConstHeadV,
    ConstItem, ConstItemV, ItemV, MacroHead, Tree, TreeV,
};
use crate::text::same_text;
use vstd::prelude::*;

verus! {

/// What a tree of tokens is, as far as a chain of conditions goes.
pub enum TokenV {
    Word(Seq<char>),
    Mark(char),
    /// A group in square brackets, and whether it holds what an attribute can.
    Bracket(bool),
    /// A group in braces, and whether it is a block.
    Brace(bool),
    Other,
}

/// What a tree of tokens is, as far as a chain of conditions goes.
pub open spec fn token(tree: TreeV) -> TokenV {
    match tree {
        TreeV::Word(word) => TokenV::Word(word),
        TreeV::Mark(mark) => TokenV::Mark(mark),
        TreeV::Bracket(parses) => TokenV::Bracket(parses),
        TreeV::Brace(stmts) => TokenV::Brace(stmts is Some),
        TreeV::Other => TokenV::Other,
    }
}

/// What the trees of a macro's body are.
pub open spec fn outline(body: Seq<TreeV>) -> Seq<TokenV> {
    body.map_values(|tree: TreeV| token(tree))
}

/// Where the attributes that start at a position end, if all of them are
/// well-formed.
pub open spec fn attrs_end(body: Seq<TokenV>, from: int) -> Option<int>
    decreases body.len() - from,
{
    if 0 <= from < body.len() && body[from] == TokenV::Mark('#') {
        if from + 1 < body.len() && body[from + 1] == TokenV::Bracket(true) {
            attrs_end(body, from + 2)
        } else {
            None
        }
    } else {
        Some(from)
    }
}

/// Whether there is a word at a position.
pub open spec fn word_at(body: Seq<TokenV>, at: int, word: Seq<char>) -> bool {
    0 <= at < body.len() && body[at] == TokenV::Word(word)
}

/// Whether there is a block at a position.
pub open spec fn brace_at(body: Seq<TokenV>, at: int) -> bool {
    0 <= at < body.len() && body[at] == TokenV::Brace(true)
}

/// Whether there is a block at a position of a macro's body.
pub open spec fn block_at(body: Seq<TreeV>, at: int) -> bool {
    0 <= at < body.len() && body[at] is Brace && body[at]->Brace_0 is Some
}

/// Where the blocks of a chain of conditions are, if all there is from a position
/// on is one: `if`, attributes and a block, then nothing, or `else` and a last
/// block, or `else` and another chain.
pub open spec fn chain(body: Seq<TokenV>, from: int) -> Option<Seq<int>>
    decreases body.len() - from,
{
    if !word_at(body, from, "if"@) {
        None
    } else {
        match attrs_end(body, from + 1) {
            None => None,
            Some(p) => if !(p > from && brace_at(body, p)) {
                None
            } else if p + 1 == body.len() {
                Some(seq![p])
            } else if !word_at(body, p + 1, "else"@) {
                None
            } else if word_at(body, p + 2, "if"@) {
                match chain(body, p + 2) {
                    Some(rest) => Some(seq![p] + rest),
                    None => None,
                }
            } else if brace_at(body, p + 2) && p + 3 == body.len() {
                Some(seq![p, p + 2])
            } else {
                None
            },
        }
    }
}

/// Where the blocks of a macro's body are, if that is a chain of conditions.
pub open spec fn blocks(body: Seq<TreeV>) -> Option<Seq<int>> {
    chain(outline(body), 0)
}

/// The constants among the first statements of a block.
pub open spec fn block_constants(stmts: Seq<Option<ConstItemV>>) -> Seq<ConstItemV>
    decreases stmts.len(),
{
    if stmts.len() == 0 {
        Seq::empty()
    } else {
        let before = block_constants(stmts.drop_last());
        match stmts.last() {
            Some(c) => before.push(c),
            None => before,
        }
    }
}

/// The constants of the blocks at the given positions.
pub open spec fn chain_constants(body: Seq<TreeV>, at: Seq<int>) -> Seq<ConstItemV>
    decreases at.len(),
{
    if at.len() == 0 {
        Seq::empty()
    } else {
        chain_constants(body, at.drop_last()) + block_constants(body[at.last()]->Brace_0->0)
    }
}

/// Whether a macro is one that constants are looked for in.
pub open spec fn is_cfg_if(item: ItemV) -> bool {
    item is Macro && item->Macro_0.path == Some("cfg_if"@)
}

/// The constants of an item: those of the chain of conditions in the body of a
/// `cfg_if` macro, which has to be one.
pub open spec fn item_constants(item: ItemV) -> Option<Seq<ConstItemV>> {
    match item {
        ItemV::Const(c) => Some(seq![c]),
        ItemV::Macro(m) => if !is_cfg_if(item) {
            Some(Seq::empty())
        } else {
            match blocks(m.body) {
                Some(at) => Some(chain_constants(m.body, at)),
                None => None,
            }
        },
        ItemV::Other => Some(Seq::empty()),
    }
}

/// The constants of all the items, in order, unless one of these is malformed.
pub open spec fn items_constants(items: Seq<ItemV>) -> Option<Seq<ConstItemV>>
    decreases items.len(),
{
    if items.len() == 0 {
        Some(Seq::empty())
    } else {
        match (items_constants(items.drop_last()), item_constants(items.last())) {
            (Some(before), Some(found)) => Some(before + found),
            _ => None,
        }
    }
}

/// Whether one of the attributes is `deprecated`.
pub open spec fn says_deprecated(paths: Seq<Option<Seq<char>>>) -> bool {
    paths.contains(Some("deprecated"@))
}

/// The constant that an item of a file stands for.
pub open spec fn constant_of(c: ConstHeadV, source: Seq<char>) -> ConstV {
    ConstV { ident: c.ident, deprecated: says_deprecated(c.paths), span: c.span, source }
}

/// The constants that the items of a file stand for.
pub open spec fn constants_of(found: Seq<ConstItemV>, source: Seq<char>) -> Seq<ConstV> {
    found.map_values(|c: ConstItemV| constant_of(c.head(), source))
}

/// The constants in the contents of a file, if these are well-formed.
pub open spec fn contained(contents: Seq<char>, path: Seq<char>) -> Option<Seq<ConstV>> {
    match parsed_source(contents) {
        Some(items) => match items_constants(items) {
            Some(found) => Some(constants_of(found, path)),
            None => None,
        },
        None => None,
    }
}

/// Where the first `deprecated` attribute is.
pub(crate) fn deprecated_position(paths: &Vec<Option<String>>) -> (r: Option<usize>)
    ensures
        match r {
            Some(a) => {
                &&& a < paths@.len()
                &&& path_view(paths@[a as int]) == Some("deprecated"@)
                &&& forall|b: int|
                    0 <= b < a ==> path_view(#[trigger] paths@[b]) != Some("deprecated"@)
            },
            None => forall|b: int|
                0 <= b < paths@.len() ==> path_view(#[trigger] paths@[b]) != Some("deprecated"@),
        },
{
    let mut a: usize = 0;
    while a < paths.len()
        invariant
            a <= paths@.len(),
            forall|b: int|
                0 <= b < a ==> path_view(#[trigger] paths@[b]) != Some("deprecated"@),
        decreases paths@.len() - a,
    {
        if let Some(path) = &paths[a] {
            if same_text(path.as_str(), "deprecated") {
                return Some(a);
            }
        }
        a += 1;
    }
    None
}

impl Const {
    /// The constant that an item of a file stands for. It is deprecated if one of
    /// its attributes says so.
    pub fn from_item(item: ConstItem, source: &str) -> (r: Self)
        ensures
            r@ == constant_of(item@, source@),
    {
        let position: Option<usize> = deprecated_position(&item.paths);
        proof {
            match position {
                Some(a) => {
                    assert(item@.paths[a as int] == Some("deprecated"@));
                },
                None => {
                    assert forall|b: int| 0 <= b < item@.paths.len() implies #[trigger] item@.paths[b]
                        != Some("deprecated"@) by {
                        assert(item@.paths[b] == path_view(item.paths@[b]));
                    }
                },
            }
        }
        Const::from_file(item.ident, position.is_some(), source.to_owned(), item.span)
    }
}

/// A parsed source file, and its path.
pub struct SourceFile {
    inner: syn::File,
    source: String,
}

impl SourceFile {
    /// The items of the file.
    pub closed spec fn items(self) -> Seq<ItemV> {
        file_items(self.inner)
    }

    pub closed spec fn source(self) -> Seq<char> {
        self.source@
    }

    /// Parses the contents of the file with the given path.
    pub fn parse(contents: &str, source: &str) -> (r: Option<Self>)
        ensures
            match r {
                Some(file) => parsed_source(contents@) == Some(file.items()) && file.source()
                    == source@,
                None => parsed_source(contents@) is None,
            },
    {
        match syn::parse_file(contents) {
            Ok(inner) => Some(SourceFile { inner, source: source.to_owned() }),
            Err(_) => None,
        }
    }

    pub fn new(contents: syn::File, source: String) -> (r: Self)
        ensures
            r.items() == file_items(contents),
            r.source() == source@,
    {
        SourceFile { inner: contents, source }
    }

    pub fn parsed_file(&self) -> (r: &syn::File)
        ensures
            file_items(*r) == self.items(),
    {
        &self.inner
    }

    pub fn path(&self) -> (r: &str)
        ensures
            r@ == self.source(),
    {
        self.source.as_str()
    }
}

/// Constants that have been found so far, file by file.
#[derive(Debug)]
pub struct ConstContainerBuilder {
    repr: Vec<Const>,
}

impl View for ConstContainerBuilder {
    type V = Seq<ConstV>;

    closed spec fn view(&self) -> Seq<ConstV> {
        self.repr@.map_values(|c: Const| c@)
    }
}

impl ConstContainerBuilder {
    pub fn new() -> (r: Self)
        ensures
            r@ == Seq::<ConstV>::empty(),
    {
        let r = ConstContainerBuilder { repr: Vec::new() };
        assert(r@ =~= Seq::empty());
        r
    }

    fn push(&mut self, constant: Const)
        ensures
            final(self)@ == old(self)@.push(constant@),
    {
        self.repr.push(constant);
        assert(self@ =~= old(self)@.push(constant@));
    }

    /// Adds the constants that were found elsewhere.
    pub fn extend(&mut self, other: Self)
        ensures
            final(self)@ == old(self)@ + other@,
    {
        let mut added: Vec<Const> = other.repr;
        self.repr.append(&mut added);
        assert(self@ =~= old(self)@ + other@);
    }

    /// The container of all the constants.
    pub fn finish(self) -> (r: ConstContainer)
        ensures
            r@ == self@.map_values(|c: ConstV| EntryV { constant: c, modified: false }),
            r.known() == Set::<Seq<char>>::empty(),
    {
        let r = ConstContainer::new(self.repr);
        assert(r@ =~= self@.map_values(|c: ConstV| EntryV { constant: c, modified: false }));
        r
    }
}

/// A tree of tokens, as far as a chain of conditions goes.
#[derive(Debug)]
pub enum Token {
    Word(String),
    Mark(char),
    Bracket(bool),
    Brace(bool),
    Other,
}

impl View for Token {
    type V = TokenV;

    open spec fn view(&self) -> TokenV {
        match *self {
            Token::Word(word) => TokenV::Word(word@),
            Token::Mark(mark) => TokenV::Mark(mark),
            Token::Bracket(parses) => TokenV::Bracket(parses),
            Token::Brace(parses) => TokenV::Brace(parses),
            Token::Other => TokenV::Other,
        }
    }
}

/// What the tokens are.
pub open spec fn tokens(body: Seq<Token>) -> Seq<TokenV> {
    body.map_values(|t: Token| t@)
}

/// Reads the body of a macro, which is of `n` trees.
pub(crate) fn read_tokens(file: &syn::File, i: usize, n: usize) -> (r: Vec<Token>)
    requires
        i < file_items(*file).len(),
        file_items(*file)[i as int] is Macro,
        n == body_at(file_items(*file), i as int).len(),
    ensures
        tokens(r@) == outline(body_at(file_items(*file), i as int)),
{
    let ghost body = body_at(file_items(*file), i as int);
    let mut read: Vec<Token> = Vec::new();
    let mut t: usize = 0;
    while t < n
        invariant
            i < file_items(*file).len(),
            file_items(*file)[i as int] is Macro,
            body == body_at(file_items(*file), i as int),
            n == body.len(),
            t <= n,
            read@.len() == t,
            forall|j: int| 0 <= j < t ==> (#[trigger] read@[j])@ == token(body[j]),
        decreases n - t,
    {
        let found: Token = match macro_tree(file, i, t) {
            Tree::Word(word) => Token::Word(word),
            Tree::Mark(mark) => Token::Mark(mark),
            Tree::Bracket => Token::Bracket(attribute_parses(file, i, t)),
            Tree::Brace => Token::Brace(block_statements(file, i, t).is_some()),
            Tree::Other => Token::Other,
        };
        read.push(found);
        t += 1;
    }
    assert(tokens(read@) =~= outline(body));
    read
}

/// Whether there is a word at a position.
fn is_word(body: &Vec<Token>, at: usize, word: &str) -> (r: bool)
    ensures
        r == word_at(tokens(body@), at as int, word@),
{
    if at >= body.len() {
        return false;
    }
    match &body[at] {
        Token::Word(found) => same_text(found.as_str(), word),
        _ => false,
    }
}

/// Whether there is a block at a position.
fn is_block(body: &Vec<Token>, at: usize) -> (r: bool)
    ensures
        r == brace_at(tokens(body@), at as int),
{
    at < body.len() && matches!(body[at], Token::Brace(true))
}

/// Where the attributes that start at a position end.
fn skip_attrs(body: &Vec<Token>, from: usize) -> (r: Option<usize>)
    requires
        from <= body@.len(),
    ensures
        match r {
            Some(p) => {
                &&& attrs_end(tokens(body@), from as int) == Some(p as int)
                &&& from <= p <= body@.len()
            },
            None => attrs_end(tokens(body@), from as int) is None,
        },
{
    let mut p: usize = from;
    while p < body.len()
        invariant
            from <= p <= body@.len(),
            attrs_end(tokens(body@), from as int) == attrs_end(tokens(body@), p as int),
        decreases body@.len() - p,
    {
        if !matches!(body[p], Token::Mark('#')) {
            return Some(p);
        }
        if p + 1 >= body.len() || !matches!(body[p + 1], Token::Bracket(true)) {
            return None;
        }
        p += 2;
    }
    Some(p)
}

/// Where the blocks of the chain of conditions are that the tokens are, if they
/// are one.
pub fn find_chain(body: &Vec<Token>) -> (r: Option<Vec<usize>>)
    ensures
        match r {
            Some(at) => chain(tokens(body@), 0) == Some(at@.map_values(|p: usize| p as int)),
            None => chain(tokens(body@), 0) is None,
        },
{
    let ghost all = tokens(body@);
    let ghost number = |p: usize| p as int;
    let n: usize = body.len();
    let mut at: Vec<usize> = Vec::new();
    let mut from: usize = 0;
    assert(at@.map_values(number) =~= Seq::empty());
    assert(chain(all, 0) is Some ==> Seq::empty() + chain(all, 0)->0 =~= chain(all, 0)->0);
    loop
        invariant
            all == tokens(body@),
            number == (|p: usize| p as int),
            n == all.len(),
            n == body@.len(),
            from <= n,
            match chain(all, from as int) {
                Some(rest) => chain(all, 0) == Some(at@.map_values(number) + rest),
                None => chain(all, 0) is None,
            },
        decreases n - from,
    {
        if !is_word(body, from, "if") {
            return None;
        }
        let p: usize = match skip_attrs(body, from + 1) {
            Some(p) => p,
            None => return None,
        };
        if !is_block(body, p) {
            return None;
        }
        let ghost before = at@.map_values(number);
        at.push(p);
        assert(at@.map_values(number) =~= before.push(p as int));
        if p + 1 == n {
            assert(before + seq![p as int] =~= at@.map_values(number));
            return Some(at);
        }
        if !is_word(body, p + 1, "else") {
            return None;
        }
        if p + 2 >= n {
            return None;
        }
        if is_word(body, p + 2, "if") {
            proof {
                if let Some(rest) = chain(all, p + 2) {
                    assert(before + (seq![p as int] + rest) =~= at@.map_values(number) + rest);
                }
            }
            from = p + 2;
        } else {
            if !is_block(body, p + 2) || p + 3 != n {
                return None;
            }
            at.push(p + 2);
            assert(before + seq![p as int, p + 2] =~= at@.map_values(number));
            return Some(at);
        }
    }
}

/// Every position that a chain names is that of a block, and they come in order.
proof fn lemma_chain(body: Seq<TokenV>, from: int)
    requires
        0 <= from,
        chain(body, from) is Some,
    ensures
        forall|j: int|
            0 <= j < chain(body, from)->0.len() ==> brace_at(
                body,
                #[trigger] chain(body, from)->0[j],
            ),
        forall|j: int|
            0 <= j < chain(body, from)->0.len() ==> #[trigger] chain(body, from)->0[j] > from,
        forall|j: int, k: int|
            0 <= j < k < chain(body, from)->0.len() ==> chain(body, from)->0[j] < chain(
                body,
                from,
            )->0[k],
    decreases body.len() - from,
{
    let p = attrs_end(body, from + 1)->0;
    if p + 1 != body.len() && word_at(body, p + 2, "if"@) {
        lemma_chain(body, p + 2);
    }
}

/// Every position that is named is that of a block, and they come in order.
pub proof fn lemma_blocks(body: Seq<TreeV>)
    requires
        blocks(body) is Some,
    ensures
        forall|j: int|
            0 <= j < blocks(body)->0.len() ==> block_at(body, #[trigger] blocks(body)->0[j]),
        forall|j: int, k: int|
            0 <= j < k < blocks(body)->0.len() ==> #[trigger] blocks(body)->0[j]
                < #[trigger] blocks(body)->0[k],
{
    lemma_chain(outline(body), 0);
    assert forall|j: int| 0 <= j < blocks(body)->0.len() implies block_at(
        body,
        #[trigger] blocks(body)->0[j],
    ) by {
        let p = chain(outline(body), 0)->0[j];
        assert(brace_at(outline(body), p));
        assert(outline(body)[p] == token(body[p]));
    }
    assert forall|j: int, k: int| 0 <= j < k < blocks(body)->0.len() implies #[trigger] blocks(
        body,
    )->0[j] < #[trigger] blocks(body)->0[k] by {
        assert(chain(outline(body), 0)->0[j] < chain(outline(body), 0)->0[k]);
    }
}

/// Adds the constants of the first `n` statements of a block.
fn extract_consts(
    file: &syn::File,
    i: usize,
    t: usize,
    n: usize,
    source: &str,
    out: &mut ConstContainerBuilder,
)
    requires
        has_tree(file_items(*file), i as int, t as int),
        block_at(body_at(file_items(*file), i as int), t as int),
        n == statements_at(file_items(*file), i as int, t as int).len(),
    ensures
        final(out)@ == old(out)@ + constants_of(
            block_constants(statements_at(file_items(*file), i as int, t as int)),
            source@,
        ),
{
    let ghost stmts = statements_at(file_items(*file), i as int, t as int);
    let mut s: usize = 0;
    assert(constants_of(block_constants(stmts.take(0)), source@) =~= Seq::empty());
    assert(out@ =~= old(out)@ + constants_of(block_constants(stmts.take(0)), source@));
    while s < n
        invariant
            has_tree(file_items(*file), i as int, t as int),
            block_at(body_at(file_items(*file), i as int), t as int),
            stmts == statements_at(file_items(*file), i as int, t as int),
            s <= n,
            n == stmts.len(),
            out@ == old(out)@ + constants_of(block_constants(stmts.take(s as int)), source@),
        decreases n - s,
    {
        assert(stmts.take(s + 1).drop_last() =~= stmts.take(s as int));
        if let Some(item) = statement(file, i, t, s) {
            let ghost c = item@;
            out.push(Const::from_item(item, source));
            assert(constants_of(block_constants(stmts.take(s + 1)), source@) =~= constants_of(
                block_constants(stmts.take(s as int)),
                source@,
            ).push(constant_of(c, source@)));
            assert(out@ =~= old(out)@ + constants_of(
                block_constants(stmts.take(s + 1)),
                source@,
            ));
        }
        s += 1;
    }
    assert(stmts.take(n as int) =~= stmts);
}

/// Adds the constants of a macro, whose body is of `n` trees. Reports whether the
/// body is well-formed; if not, nothing is added.
fn process_macro(
    file: &syn::File,
    i: usize,
    n: usize,
    source: &str,
    out: &mut ConstContainerBuilder,
) -> (r: bool)
    requires
        i < file_items(*file).len(),
        file_items(*file)[i as int] is Macro,
        n == body_at(file_items(*file), i as int).len(),
    ensures
        match blocks(body_at(file_items(*file), i as int)) {
            Some(at) => r && final(out)@ == old(out)@ + constants_of(
                chain_constants(body_at(file_items(*file), i as int), at),
                source@,
            ),
            None => !r && final(out)@ == old(out)@,
        },
{
    let at: Vec<usize> = match find_chain(&read_tokens(file, i, n)) {
        Some(at) => at,
        None => return false,
    };
    let ghost body = body_at(file_items(*file), i as int);
    let ghost places = at@.map_values(|p: usize| p as int);
    let mut b: usize = 0;
    proof {
        assert(blocks(body) == Some(places));
        lemma_blocks(body);
        assert forall|j: int| 0 <= j < places.len() implies block_at(
            body,
            #[trigger] places[j],
        ) by {
            assert(blocks(body)->0[j] == places[j]);
        }
    }
    assert(constants_of(chain_constants(body, places.take(0)), source@) =~= Seq::empty());
    assert(out@ =~= old(out)@ + constants_of(chain_constants(body, places.take(0)), source@));
    while b < at.len()
        invariant
            i < file_items(*file).len(),
            file_items(*file)[i as int] is Macro,
            n == body.len(),
            body == body_at(file_items(*file), i as int),
            places == at@.map_values(|p: usize| p as int),
            forall|j: int| 0 <= j < places.len() ==> block_at(body, #[trigger] places[j]),
            b <= at@.len(),
            out@ == old(out)@ + constants_of(
                chain_constants(body, places.take(b as int)),
                source@,
            ),
        decreases at@.len() - b,
    {
        assert(block_at(body, places[b as int]));
        assert(places.take(b + 1).drop_last() =~= places.take(b as int));
        let ghost before = chain_constants(body, places.take(b as int));
        if let Some(count) = block_statements(file, i, at[b]) {
            extract_consts(file, i, at[b], count, source, out);
        }
        assert(constants_of(chain_constants(body, places.take(b + 1)), source@) =~= constants_of(
            before,
            source@,
        ) + constants_of(block_constants(body[places[b as int]]->Brace_0->0), source@));
        assert(out@ =~= old(out)@ + constants_of(
            chain_constants(body, places.take(b + 1)),
            source@,
        ));
        b += 1;
    }
    assert(places.take(at@.len() as int) =~= places);
    true
}

/// Whether the head is that of a `cfg_if` macro.
pub(crate) fn is_cfg_if_head(head: &MacroHead) -> (r: bool)
    ensures
        r == (path_view(head.path) == Some("cfg_if"@)),
{
    match &head.path {
        Some(path) => same_text(path.as_str(), "cfg_if"),
        None => false,
    }
}

/// Finds the constants of a source file: those among its items, and those in the
/// blocks of `cfg_if` macros. There are none to be had of a file where the body
/// of such a macro is malformed.
pub fn parse_constants(file: &SourceFile) -> (r: Option<ConstContainerBuilder>)
    ensures
        match items_constants(file.items()) {
            Some(found) => r is Some && r->0@ == constants_of(found, file.source()),
            None => r is None,
        },
{
    let parsed: &syn::File = file.parsed_file();
    let source: &str = file.path();
    let ghost items = file_items(*parsed);
    let n: usize = item_count(parsed);
    let mut out = ConstContainerBuilder::new();
    let mut i: usize = 0;
    assert(items.take(0) =~= Seq::empty());
    assert(out@ =~= constants_of(Seq::empty(), source@));
    while i < n
        invariant
            i <= n,
            items == file_items(*parsed),
            items == file.items(),
            n == items.len(),
            items_constants(items.take(i as int)) is Some,
            out@ == constants_of(items_constants(items.take(i as int))->0, source@),
        decreases n - i,
    {
        assert(items.take(i + 1).drop_last() =~= items.take(i as int));
        let ghost before = items_constants(items.take(i as int))->0;
        let ghost gathered = out@;
        let mut malformed: bool = false;
        if let Some(item) = const_item(parsed, i) {
            out.push(Const::from_item(item, source));
        } else if let Some(head) = macro_head(parsed, i) {
            if is_cfg_if_head(&head) {
                malformed = !process_macro(parsed, i, head.trees, source, &mut out);
            }
        }
        proof {
            if malformed {
                lemma_malformed(items, i as int);
            } else {
                let found = item_constants(items[i as int])->0;
                assert(out@ =~= gathered + constants_of(found, source@));
                assert(constants_of(before + found, source@) =~= gathered + constants_of(
                    found,
                    source@,
                ));
            }
        }
        if malformed {
            return None;
        }
        i += 1;
    }
    assert(items.take(n as int) =~= items);
    Some(out)
}

/// There are no constants to be had where one of the items is malformed.
proof fn lemma_malformed(items: Seq<ItemV>, i: int)
    requires
        0 <= i < items.len(),
        item_constants(items[i]) is None,
    ensures
        items_constants(items) is None,
    decreases items.len(),
{
    if i < items.len() - 1 {
        assert(items.drop_last()[i] == items[i]);
        lemma_malformed(items.drop_last(), i);
    }
}

/// The constants of all the files, in order, unless one of these is malformed.
pub open spec fn files_constants(files: Seq<SourceFile>) -> Option<Seq<ConstV>>
    decreases files.len(),
{
    if files.len() == 0 {
        Some(Seq::empty())
    } else {
        match (files_constants(files.drop_last()), items_constants(files.last().items())) {
            (Some(before), Some(found)) => Some(
                before + constants_of(found, files.last().source()),
            ),
            _ => None,
        }
    }
}

/// Finds the constants of all the source files, in order. There are none to be had
/// where the body of a `cfg_if` macro in one of them is malformed.
pub fn parse_all_constants(files: &[SourceFile]) -> (r: Option<Vec<Const>>)
    ensures
        match files_constants(files@) {
            Some(found) => r is Some && views(r->0@) == found,
            None => r is None,
        },
{
    let mut out = ConstContainerBuilder::new();
    let mut i: usize = 0;
    assert(files@.take(0) =~= Seq::empty());
    while i < files.len()
        invariant
            i <= files@.len(),
            files_constants(files@.take(i as int)) == Some(out@),
        decreases files@.len() - i,
    {
        assert(files@.take(i + 1).drop_last() =~= files@.take(i as int));
        match parse_constants(&files[i]) {
            Some(found) => out.extend(found),
            None => {
                proof {
                    lemma_malformed_file(files@, i as int);
                }
                return None;
            },
        }
        i += 1;
    }
    assert(files@.take(files@.len() as int) =~= files@);
    Some(out.repr)
}

/// There are no constants to be had where one of the files is malformed.
proof fn lemma_malformed_file(files: Seq<SourceFile>, i: int)
    requires
        0 <= i < files.len(),
        items_constants(files[i].items()) is None,
    ensures
        files_constants(files) is None,
    decreases files.len(),
{
    if i < files.len() - 1 {
        assert(files.drop_last()[i] == files[i]);
        lemma_malformed_file(files.drop_last(), i);
    }
}

} // verus!
