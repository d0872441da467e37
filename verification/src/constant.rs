//! Constants as they were read from a source file.

use vstd::prelude::*;

verus! {

/// A position in a source file: lines count from one, columns from zero.
#[derive(Debug, Clone, Copy, PartialEq, Eq, Structural)]
pub struct LineColumn {
    pub line: usize,
    pub column: usize,
}

/// In-memory representation of a parsed constant.
///
/// It remembers the file that the constant stands in, where in that file its
/// item starts, and whether the constant is marked deprecated.
#[derive(Debug)]
pub struct Const {
    ident: String,
    deprecated: bool,
    span: LineColumn,
    source: String,
}

/// What a [`Const`] holds.
#[verifier::ext_equal]
pub struct ConstV {
    pub ident: Seq<char>,
    pub deprecated: bool,
    pub span: LineColumn,
    pub source: Seq<char>,
}

impl ConstV {
    /// The same constant with the deprecation flag set to `yes`.
    pub open spec fn marked(self, yes: bool) -> ConstV {
        ConstV { ident: self.ident, deprecated: yes, span: self.span, source: self.source }
    }
}

impl View for Const {
    type V = ConstV;

    closed spec fn view(&self) -> ConstV {
        ConstV {
            ident: self.ident@,
            deprecated: self.deprecated,
            span: self.span,
            source: self.source@,
        }
    }
}

impl Const {
    /// Checks if the constant is marked deprecated or not.
    ///
    /// Note this check is relative to its current state in memory: the constant
    /// may have been loaded and modified, but the change not effected to disk.
    pub fn is_deprecated(&self) -> (r: bool)
        ensures
            r == self@.deprecated,
    {
        self.deprecated
    }

    /// Fetches the identifier of the constant symbol.
    pub fn ident(&self) -> (r: &str)
        ensures
            r@ == self@.ident,
    {
        self.ident.as_str()
    }

    /// Fetches the path to the source file where this constant got extracted
    /// from.
    pub fn path(&self) -> (r: &str)
        ensures
            r@ == self@.source,
    {
        self.source.as_str()
    }

    /// Where the item of this constant starts in its source file.
    pub fn span(&self) -> (r: LineColumn)
        ensures
            r == self@.span,
    {
        self.span
    }

    /// Puts a constant together from its parts.
    pub fn from_file(ident: String, deprecated: bool, source: String, span: LineColumn) -> (r: Self)
        ensures
            r@ == (ConstV { ident: ident@, deprecated, span, source: source@ }),
    {
        Const { ident, deprecated, span, source }
    }

    /// Marks the constant deprecated, or not. Reports whether it was deprecated
    /// before.
    pub fn deprecate(&mut self, yes: bool) -> (r: bool)
        ensures
            final(self)@ == old(self)@.marked(yes),
            r == old(self)@.deprecated,
    {
        let before: bool = self.deprecated;
        self.deprecated = yes;
        before
    }

    /// Takes note of where the item of this constant now starts.
    pub(crate) fn move_to(&mut self, span: LineColumn)
        ensures
            final(self)@ == (ConstV { span, ..old(self)@ }),
    {
        self.span = span;
    }

    /// Marks the constant deprecated, or not.
    pub fn deprecated(&mut self, yes: bool)
        ensures
            final(self)@ == old(self)@.marked(yes),
    {
        self.deprecated = yes;
    }
}

impl Clone for Const {
    fn clone(&self) -> (r: Self)
        ensures
            r@ == self@,
    {
        Const {
            ident: self.ident.clone(),
            deprecated: self.deprecated,
            span: self.span,
            source: self.source.clone(),
        }
    }
}

} // verus!
