//! Parsed source files, as far as their constants go.

use crate::constant::LineColumn;
use proc_macro2::{Delimiter, TokenStream, TokenTree};
use quote::ToTokens;
use syn::parse::Parser;
use syn::spanned::Spanned;
use vstd::prelude::*;

verus! {

/// A parsed source file.
#[verifier::external_type_specification]
#[verifier::external_body]
pub struct ExFile(syn::File);

/// Why a source file does not parse.
#[verifier::external_type_specification]
#[verifier::external_body]
pub struct ExError(syn::Error);

/// An attribute.
#[verifier::ext_equal]
pub struct AttrV {
    /// The path, if that is a single word.
    pub path: Option<Seq<char>>,
    /// The texts of `since` and `note`, where these two are what it says.
    pub says: Option<(Seq<char>, Seq<char>)>,
}

/// The item of a constant, and where it starts, attributes and all.
#[verifier::ext_equal]
pub struct ConstItemV {
    pub ident: Seq<char>,
    pub attrs: Seq<AttrV>,
    pub span: LineColumn,
}

/// The item of a constant, with no more of its attributes than their paths.
#[verifier::ext_equal]
pub struct ConstHeadV {
    pub ident: Seq<char>,
    pub paths: Seq<Option<Seq<char>>>,
    pub span: LineColumn,
}

impl ConstItemV {
    pub open spec fn head(self) -> ConstHeadV {
        ConstHeadV {
            ident: self.ident,
            paths: self.attrs.map_values(|attr: AttrV| attr.path),
            span: self.span,
        }
    }
}

/// The attribute that deprecates an item.
pub open spec fn deprecation(since: Seq<char>, note: Seq<char>) -> AttrV {
    AttrV { path: Some("deprecated"@), says: Some((since, note)) }
}

/// One of the trees of tokens in the body of a macro.
pub enum TreeV {
    Word(Seq<char>),
    /// A punctuation character.
    Mark(char),
    /// A group in square brackets, and whether it holds what an attribute can.
    Bracket(bool),
    /// A group in braces. Where it is a block, these are its statements, with the
    /// items of those that are constants.
    Brace(Option<Seq<Option<ConstItemV>>>),
    Other,
}

/// The use of a macro as an item.
#[verifier::ext_equal]
pub struct MacroItemV {
    /// Whether there is a name between the macro and its body.
    pub named: bool,
    /// The path of the macro, if that is a single word.
    pub path: Option<Seq<char>>,
    pub body: Seq<TreeV>,
}

/// An item of a source file.
pub enum ItemV {
    Const(ConstItemV),
    Macro(MacroItemV),
    Other,
}

/// The items of a parsed source file.
pub uninterp spec fn file_items(file: syn::File) -> Seq<ItemV>;

/// The items of the source file with the given contents, if it parses.
pub uninterp spec fn parsed_source(contents: Seq<char>) -> Option<Seq<ItemV>>;

/// The item of a constant, with the paths of its attributes that are single
/// words.
#[derive(Debug)]
pub struct ConstItem {
    pub ident: String,
    pub paths: Vec<Option<String>>,
    pub span: LineColumn,
}

/// A path, as characters.
pub open spec fn path_view(path: Option<String>) -> Option<Seq<char>> {
    match path {
        Some(path) => Some(path@),
        None => None,
    }
}

impl View for ConstItem {
    type V = ConstHeadV;

    open spec fn view(&self) -> ConstHeadV {
        ConstHeadV {
            ident: self.ident@,
            paths: self.paths@.map_values(|path: Option<String>| path_view(path)),
            span: self.span,
        }
    }
}

/// The use of a macro as an item, but for its body, of which this is how many
/// trees there are.
#[derive(Debug)]
pub struct MacroHead {
    pub named: bool,
    pub path: Option<String>,
    pub trees: usize,
}

/// One of the trees of tokens in the body of a macro.
#[derive(Debug)]
pub enum Tree {
    Word(String),
    Mark(char),
    Bracket,
    Brace,
    Other,
}

/// Whether `tree` is what is seen of `of` without a look into a group.
pub open spec fn outlines(tree: Tree, of: TreeV) -> bool {
    match of {
        TreeV::Word(word) => tree is Word && tree->Word_0@ == word,
        TreeV::Mark(mark) => tree == Tree::Mark(mark),
        TreeV::Bracket(_) => tree is Bracket,
        TreeV::Brace(_) => tree is Brace,
        TreeV::Other => tree is Other,
    }
}

/// The body of the macro that is the item at a position.
pub open spec fn body_at(items: Seq<ItemV>, i: int) -> Seq<TreeV> {
    items[i]->Macro_0.body
}

/// Whether the item at a position is a macro, with a tree at a position of its
/// body.
pub open spec fn has_tree(items: Seq<ItemV>, i: int, t: int) -> bool {
    &&& 0 <= i < items.len()
    &&& items[i] is Macro
    &&& 0 <= t < body_at(items, i).len()
}

/// The statements of the block at a position of a macro's body.
pub open spec fn statements_at(items: Seq<ItemV>, i: int, t: int) -> Seq<Option<ConstItemV>> {
    body_at(items, i)[t]->Brace_0->0
}

/// Whether there is a block with a statement at the positions.
pub open spec fn has_statement(items: Seq<ItemV>, i: int, t: int, s: int) -> bool {
    &&& has_tree(items, i, t)
    &&& body_at(items, i)[t] is Brace
    &&& body_at(items, i)[t]->Brace_0 is Some
    &&& 0 <= s < statements_at(items, i, t).len()
}

/// The items with another one in the place of the constant at a position.
pub open spec fn with_const(items: Seq<ItemV>, i: int, c: ConstItemV) -> Seq<ItemV> {
    items.update(i, ItemV::Const(c))
}

/// The items with another constant in the place of that in a block of a macro.
pub open spec fn with_statement(
    items: Seq<ItemV>,
    i: int,
    t: int,
    s: int,
    c: ConstItemV,
) -> Seq<ItemV> {
    let body = body_at(items, i).update(
        t,
        TreeV::Brace(Some(statements_at(items, i, t).update(s, Some(c)))),
    );
    items.update(i, ItemV::Macro(MacroItemV { body, ..items[i]->Macro_0 }))
}

/// `syn::parse_file`: parses the contents of a source file, or finds that they do
/// not parse, which depends on nothing but the contents.
pub assume_specification[ syn::parse_file ](content: &str) -> (r: Result<syn::File, syn::Error>)
    ensures
        match r {
            Ok(file) => parsed_source(content@) == Some(file_items(file)),
            Err(_) => parsed_source(content@) is None,
        },
;

/// The length of `syn::File::items`.
#[verifier::external_body]
pub(crate) fn item_count(file: &syn::File) -> (r: usize)
    ensures
        r == file_items(*file).len(),
{
    file.items.len()
}

/// The item at a position as a `syn::ItemConst`, if it is one: its identifier;
/// what `syn::Path::get_ident` finds in the path of each attribute; and the start
/// of the span that `Spanned` gives to the item.
#[verifier::external_body]
pub(crate) fn const_item(file: &syn::File, i: usize) -> (r: Option<ConstItem>)
    requires
        i < file_items(*file).len(),
    ensures
        match r {
            Some(item) => {
                &&& file_items(*file)[i as int] is Const
                &&& file_items(*file)[i as int]->Const_0.head() == item@
            },
            None => !(file_items(*file)[i as int] is Const),
        },
{
    match &file.items[i] {
        syn::Item::Const(item) => Some(ConstItem {
            ident: item.ident.to_string(),
            paths: item
                .attrs
                .iter()
                .map(|attr| attr.path().get_ident().map(|id| id.to_string()))
                .collect(),
            span: LineColumn { line: item.span().start().line, column: item.span().start().column },
        }),
        _ => None,
    }
}

/// The item at a position as a `syn::ItemMacro`, if it is one: whether it has an
/// identifier; what `syn::Path::get_ident` finds in the path of the macro; and
/// how many token trees there are in its body.
#[verifier::external_body]
pub(crate) fn macro_head(file: &syn::File, i: usize) -> (r: Option<MacroHead>)
    requires
        i < file_items(*file).len(),
    ensures
        match r {
            Some(head) => {
                &&& file_items(*file)[i as int] is Macro
                &&& head.named == file_items(*file)[i as int]->Macro_0.named
                &&& path_view(head.path) == file_items(*file)[i as int]->Macro_0.path
                &&& head.trees == body_at(file_items(*file), i as int).len()
            },
            None => !(file_items(*file)[i as int] is Macro),
        },
{
    match &file.items[i] {
        syn::Item::Macro(item) => Some(MacroHead {
            named: item.ident.is_some(),
            path: item.mac.path.get_ident().map(|id| id.to_string()),
            trees: item.mac.tokens.clone().into_iter().count(),
        }),
        _ => None,
    }
}

/// The `proc_macro2::TokenTree` at a position of a macro's body.
#[verifier::external_body]
pub(crate) fn macro_tree(file: &syn::File, i: usize, t: usize) -> (r: Tree)
    requires
        has_tree(file_items(*file), i as int, t as int),
    ensures
        outlines(r, body_at(file_items(*file), i as int)[t as int]),
{
    match &file.items[i] {
        syn::Item::Macro(item) => match item.mac.tokens.clone().into_iter().nth(t) {
            Some(TokenTree::Ident(word)) => Tree::Word(word.to_string()),
            Some(TokenTree::Punct(mark)) => Tree::Mark(mark.as_char()),
            Some(TokenTree::Group(group)) => match group.delimiter() {
                Delimiter::Bracket => Tree::Bracket,
                Delimiter::Brace => Tree::Brace,
                _ => Tree::Other,
            },
            _ => Tree::Other,
        },
        _ => Tree::Other,
    }
}

/// `syn::parse2` on what a group in square brackets holds, to a `syn::Meta`:
/// whether that is what an attribute can hold.
#[verifier::external_body]
pub(crate) fn attribute_parses(file: &syn::File, i: usize, t: usize) -> (r: bool)
    requires
        has_tree(file_items(*file), i as int, t as int),
        body_at(file_items(*file), i as int)[t as int] is Bracket,
    ensures
        r == body_at(file_items(*file), i as int)[t as int]->Bracket_0,
{
    match &file.items[i] {
        syn::Item::Macro(item) => match item.mac.tokens.clone().into_iter().nth(t) {
            Some(TokenTree::Group(group)) => syn::parse2::<syn::Meta>(group.stream()).is_ok(),
            _ => false,
        },
        _ => false,
    }
}

/// `syn::parse2` on a group in braces, to a `syn::Block`: how many statements it
/// has, if it is one.
#[verifier::external_body]
pub(crate) fn block_statements(file: &syn::File, i: usize, t: usize) -> (r: Option<usize>)
    requires
        has_tree(file_items(*file), i as int, t as int),
        body_at(file_items(*file), i as int)[t as int] is Brace,
    ensures
        match r {
            Some(n) => {
                &&& body_at(file_items(*file), i as int)[t as int]->Brace_0 is Some
                &&& n == statements_at(file_items(*file), i as int, t as int).len()
            },
            None => body_at(file_items(*file), i as int)[t as int]->Brace_0 is None,
        },
{
    match &file.items[i] {
        syn::Item::Macro(item) => {
            let group: TokenStream = item.mac.tokens.clone().into_iter().skip(t).take(1).collect();
            syn::parse2::<syn::Block>(group).ok().map(|block| block.stmts.len())
        },
        _ => None,
    }
}

/// `syn::parse2` on a group in braces, to a `syn::Block`: the statement at a
/// position as a `syn::ItemConst`, if it is one, read as [`const_item`] does.
#[verifier::external_body]
pub(crate) fn statement(file: &syn::File, i: usize, t: usize, s: usize) -> (r: Option<ConstItem>)
    requires
        has_statement(file_items(*file), i as int, t as int, s as int),
    ensures
        match r {
            Some(item) => {
                &&& statements_at(file_items(*file), i as int, t as int)[s as int] is Some
                &&& statements_at(file_items(*file), i as int, t as int)[s as int]->0.head()
                    == item@
            },
            None => statements_at(file_items(*file), i as int, t as int)[s as int] is None,
        },
{
    let syn::Item::Macro(mac) = &file.items[i] else { return None };
    let group: TokenStream = mac.mac.tokens.clone().into_iter().skip(t).take(1).collect();
    match &syn::parse2::<syn::Block>(group).ok()?.stmts[s] {
        syn::Stmt::Item(syn::Item::Const(item)) => Some(ConstItem {
            ident: item.ident.to_string(),
            paths: item
                .attrs
                .iter()
                .map(|attr| attr.path().get_ident().map(|id| id.to_string()))
                .collect(),
            span: LineColumn { line: item.span().start().line, column: item.span().start().column },
        }),
        _ => None,
    }
}

/// Whether `after` is `before` with the given attributes. Nothing is said of
/// where the item starts, which goes by its first token.
pub open spec fn only_attrs(
    before: ConstItemV,
    after: ConstItemV,
    attrs: Seq<AttrV>,
) -> bool {
    after.ident == before.ident && after.attrs == attrs
}

/// `syn::Attribute::parse_outer` on a `deprecated` attribute with the given texts,
/// which is then pushed to the attributes of the `syn::ItemConst` at a position.
/// The other items stay as they are. Nothing is said of where the constant starts
/// afterwards.
#[verifier::external_body]
pub(crate) fn push_deprecated(file: &mut syn::File, i: usize, since: &str, note: &str)
    requires
        i < file_items(*old(file)).len(),
        file_items(*old(file))[i as int] is Const,
    ensures
        exists|c: ConstItemV|
            file_items(*final(file)) == #[trigger] with_const(file_items(*old(file)), i as int, c)
                && only_attrs(
                file_items(*old(file))[i as int]->Const_0,
                c,
                file_items(*old(file))[i as int]->Const_0.attrs.push(deprecation(since@, note@)),
            ),
{
    let text = format!("#[deprecated(since = {since:?}, note = {note:?})]");
    let parsed = syn::Attribute::parse_outer.parse_str(&text);
    if let (syn::Item::Const(item), Ok(attrs)) = (&mut file.items[i], parsed) {
        item.attrs.extend(attrs);
    }
}

/// The attributes after the one at a position was removed, with the last one in
/// its place.
pub open spec fn swap_removed(attrs: Seq<AttrV>, a: int) -> Seq<AttrV> {
    attrs.update(a, attrs.last()).drop_last()
}

/// `Vec::swap_remove` on the attributes of the `syn::ItemConst` at a position.
/// The other items stay as they are. Nothing is said of where the constant starts
/// afterwards.
#[verifier::external_body]
pub(crate) fn swap_remove_attribute(file: &mut syn::File, i: usize, a: usize)
    requires
        i < file_items(*old(file)).len(),
        file_items(*old(file))[i as int] is Const,
        a < file_items(*old(file))[i as int]->Const_0.attrs.len(),
    ensures
        exists|c: ConstItemV|
            file_items(*final(file)) == #[trigger] with_const(file_items(*old(file)), i as int, c)
                && only_attrs(
                file_items(*old(file))[i as int]->Const_0,
                c,
                swap_removed(file_items(*old(file))[i as int]->Const_0.attrs, a as int),
            ),
{
    if let syn::Item::Const(item) = &mut file.items[i] {
        item.attrs.swap_remove(a);
    }
}

/// [`push_deprecated`] for a constant in a block of a macro's body. The block is
/// parsed by `syn::parse2` and printed by `quote::ToTokens`, and reads as the same
/// statements then, but for the attributes of the constant. Nothing is said of
/// where the constant starts afterwards.
#[verifier::external_body]
pub(crate) fn push_deprecated_within(
    file: &mut syn::File,
    i: usize,
    t: usize,
    s: usize,
    since: &str,
    note: &str,
)
    requires
        has_statement(file_items(*old(file)), i as int, t as int, s as int),
        statements_at(file_items(*old(file)), i as int, t as int)[s as int] is Some,
    ensures
        exists|c: ConstItemV|
            file_items(*final(file)) == #[trigger] with_statement(
                file_items(*old(file)),
                i as int,
                t as int,
                s as int,
                c,
            ) && only_attrs(
                statements_at(file_items(*old(file)), i as int, t as int)[s as int]->0,
                c,
                statements_at(
                    file_items(*old(file)),
                    i as int,
                    t as int,
                )[s as int]->0.attrs.push(deprecation(since@, note@)),
            ),
{
    let text = format!("#[deprecated(since = {since:?}, note = {note:?})]");
    let parsed = syn::Attribute::parse_outer.parse_str(&text);
    let syn::Item::Macro(mac) = &mut file.items[i] else { return };
    let mut trees: Vec<TokenTree> = mac.mac.tokens.clone().into_iter().collect();
    if let Ok(mut block) = syn::parse2::<syn::Block>(trees[t].clone().into()) {
        if let (syn::Stmt::Item(syn::Item::Const(c)), Ok(attrs)) = (&mut block.stmts[s], parsed) {
            c.attrs.extend(attrs);
        }
        trees.splice(t..=t, block.into_token_stream());
    }
    mac.mac.tokens = trees.into_iter().collect();
}

/// [`swap_remove_attribute`] for a constant in a block of a macro's body. The
/// block is parsed by `syn::parse2` and printed by `quote::ToTokens`, and reads as
/// the same statements then, but for the attributes of the constant. Nothing is
/// said of where the constant starts afterwards.
#[verifier::external_body]
pub(crate) fn swap_remove_attribute_within(
    file: &mut syn::File,
    i: usize,
    t: usize,
    s: usize,
    a: usize,
)
    requires
        has_statement(file_items(*old(file)), i as int, t as int, s as int),
        statements_at(file_items(*old(file)), i as int, t as int)[s as int] is Some,
        a < statements_at(file_items(*old(file)), i as int, t as int)[s as int]->0.attrs.len(),
    ensures
        exists|c: ConstItemV|
            file_items(*final(file)) == #[trigger] with_statement(
                file_items(*old(file)),
                i as int,
                t as int,
                s as int,
                c,
            ) && only_attrs(
                statements_at(file_items(*old(file)), i as int, t as int)[s as int]->0,
                c,
                swap_removed(
                    statements_at(
                        file_items(*old(file)),
                        i as int,
                        t as int,
                    )[s as int]->0.attrs,
                    a as int,
                ),
            ),
{
    let syn::Item::Macro(mac) = &mut file.items[i] else { return };
    let mut trees: Vec<TokenTree> = mac.mac.tokens.clone().into_iter().collect();
    if let Ok(mut block) = syn::parse2::<syn::Block>(trees[t].clone().into()) {
        if let syn::Stmt::Item(syn::Item::Const(item)) = &mut block.stmts[s] {
            item.attrs.swap_remove(a);
        }
        trees.splice(t..=t, block.into_token_stream());
    }
    mac.mac.tokens = trees.into_iter().collect();
}

} // verus!
