//! What is shown.

use crate::constant::{Const, ConstV};
use crate::constant_container::borrowed::{fits, positions, BorrowedSubset};
use crate::constant_container::visit::{constants, window, Visit};
use crate::constant_container::ConstContainer;
use crate::text::joined;
use crate::tui::event::Mode;
use crate::tui::position::PositionRepr;
use crate::tui::selection::{Selection, SelectionV};
use crate::tui::state::{State, StateV};
use std::ops::Range;
use vstd::prelude::*;

verus! {

/// The attributes that a piece of text is shown with.
#[derive(Debug, Clone, Copy, PartialEq, Eq, Structural)]
pub struct Style {
    pub bold: bool,
    pub underlined: bool,
    pub dim: bool,
}

impl Style {
    pub open spec fn plain() -> Style {
        Style { bold: false, underlined: false, dim: false }
    }

    /// Bold and underlined.
    pub open spec fn strong() -> Style {
        Style { bold: true, underlined: true, dim: false }
    }

    pub open spec fn dimmed() -> Style {
        Style { bold: false, underlined: false, dim: true }
    }

    pub fn new() -> (r: Self)
        ensures
            r == Style::plain(),
    {
        Style { bold: false, underlined: false, dim: false }
    }

    pub fn bold(self) -> (r: Self)
        ensures
            r == (Style { bold: true, ..self }),
    {
        Style { bold: true, ..self }
    }

    pub fn underlined(self) -> (r: Self)
        ensures
            r == (Style { underlined: true, ..self }),
    {
        Style { underlined: true, ..self }
    }
}

/// What a [`StylizedSymbol`] is.
#[verifier::ext_equal]
pub struct SymbolV {
    pub ident: Seq<char>,
    pub deprecated: bool,
    pub ident_style: Style,
    pub mark_style: Style,
}

/// A symbol of the list: a mark that says whether it is deprecated, and its
/// identifier.
#[derive(Debug)]
pub struct StylizedSymbol {
    ident: String,
    deprecated: bool,
    ident_style: Style,
    mark_style: Style,
}

impl View for StylizedSymbol {
    type V = SymbolV;

    closed spec fn view(&self) -> SymbolV {
        SymbolV {
            ident: self.ident@,
            deprecated: self.deprecated,
            ident_style: self.ident_style,
            mark_style: self.mark_style,
        }
    }
}

/// The symbol of a constant, with the given styles.
pub open spec fn symbol(c: ConstV, ident_style: Style, mark_style: Style) -> SymbolV {
    SymbolV { ident: c.ident, deprecated: c.deprecated, ident_style, mark_style }
}

impl StylizedSymbol {
    pub fn from_constant(sym: &Const) -> (r: Self)
        ensures
            r@ == symbol(sym@, Style::plain(), Style::plain()),
    {
        StylizedSymbol {
            ident: sym.ident().to_owned(),
            deprecated: sym.is_deprecated(),
            ident_style: Style::new(),
            mark_style: Style::new(),
        }
    }

    pub fn for_mark(self, style: Style) -> (r: Self)
        ensures
            r@ == (SymbolV { mark_style: style, ..self@ }),
    {
        StylizedSymbol { mark_style: style, ..self }
    }

    pub fn for_ident(self, style: Style) -> (r: Self)
        ensures
            r@ == (SymbolV { ident_style: style, ..self@ }),
    {
        StylizedSymbol { ident_style: style, ..self }
    }

    /// Shows the identifier dimmed.
    pub fn dim(self) -> (r: Self)
        ensures
            r@ == (SymbolV {
                ident_style: (Style { dim: true, ..self@.ident_style }),
                ..self@
            }),
    {
        let style: Style = Style { dim: true, ..self.ident_style };
        self.for_ident(style)
    }

    /// Shows the identifier bold.
    pub fn bold(self) -> (r: Self)
        ensures
            r@ == (SymbolV {
                ident_style: (Style { bold: true, ..self@.ident_style }),
                ..self@
            }),
    {
        let style: Style = self.ident_style.bold();
        self.for_ident(style)
    }

    /// Shows the identifier underlined.
    pub fn underlined(self) -> (r: Self)
        ensures
            r@ == (SymbolV {
                ident_style: (Style { underlined: true, ..self@.ident_style }),
                ..self@
            }),
    {
        let style: Style = self.ident_style.underlined();
        self.for_ident(style)
    }

    pub fn ident(&self) -> (r: &str)
        ensures
            r@ == self@.ident,
    {
        self.ident.as_str()
    }

    pub fn ident_style(&self) -> (r: Style)
        ensures
            r == self@.ident_style,
    {
        self.ident_style
    }

    pub fn mark_style(&self) -> (r: Style)
        ensures
            r == self@.mark_style,
    {
        self.mark_style
    }

    /// The mark in front of the identifier.
    pub fn mark(&self) -> (r: &'static str)
        ensures
            r@ == (if self@.deprecated {
                "[X]"@
            } else {
                "[ ]"@
            }),
    {
        if self.deprecated {
            "[X]"
        } else {
            "[ ]"
        }
    }
}

#[derive(Debug, Clone, Copy, PartialEq, Eq, Structural)]
pub enum CursorStyle {
    SteadyBar,
    SteadyBlock,
}

/// One command to the terminal.
#[derive(Debug)]
pub enum Draw {
    Hide,
    Show,
    /// Goes back to the start of the prompt's row.
    RestorePosition,
    ClearFromCursorDown,
    Print(String),
    Symbol(StylizedSymbol),
    MoveToNextLine(u16),
    MoveRight(u16),
    SetCursorStyle(CursorStyle),
}

/// What a [`Draw`] is.
pub enum DrawV {
    Hide,
    Show,
    RestorePosition,
    ClearFromCursorDown,
    Print(Seq<char>),
    Symbol(SymbolV),
    MoveToNextLine(u16),
    MoveRight(u16),
    SetCursorStyle(CursorStyle),
}

impl View for Draw {
    type V = DrawV;

    open spec fn view(&self) -> DrawV {
        match *self {
            Draw::Hide => DrawV::Hide,
            Draw::Show => DrawV::Show,
            Draw::RestorePosition => DrawV::RestorePosition,
            Draw::ClearFromCursorDown => DrawV::ClearFromCursorDown,
            Draw::Print(text) => DrawV::Print(text@),
            Draw::Symbol(symbol) => DrawV::Symbol(symbol@),
            Draw::MoveToNextLine(n) => DrawV::MoveToNextLine(n),
            Draw::MoveRight(n) => DrawV::MoveRight(n),
            Draw::SetCursorStyle(style) => DrawV::SetCursorStyle(style),
        }
    }
}

/// What a sequence of commands is.
pub open spec fn drawn(out: Seq<Draw>) -> Seq<DrawV> {
    out.map_values(|d: Draw| d@)
}

/// The rows of the list.
pub open spec fn rows(shown: Seq<ConstV>, ident_style: Style, mark_style: Style) -> Seq<DrawV>
    decreases shown.len(),
{
    if shown.len() == 0 {
        Seq::empty()
    } else {
        rows(shown.drop_last(), ident_style, mark_style).push(
            DrawV::Symbol(symbol(shown.last(), ident_style, mark_style)),
        ).push(DrawV::MoveToNextLine(1))
    }
}

/// The handles on the first ten constants of a view.
pub open spec fn first_ten(handles: Seq<int>) -> Seq<int> {
    handles.take(
        if handles.len() < 10 {
            handles.len() as int
        } else {
            10
        },
    )
}

/// What a blank prompt row begins with, and the prompt in it.
pub open spec fn prompt_part(prompt: Seq<char>) -> Seq<DrawV> {
    seq![
        DrawV::Hide,
        DrawV::RestorePosition,
        DrawV::ClearFromCursorDown,
        DrawV::Print("> "@ + prompt),
        DrawV::RestorePosition,
    ]
}

/// The list below the prompt.
pub open spec fn list_part(shown: Seq<ConstV>) -> Seq<DrawV> {
    seq![DrawV::MoveToNextLine(1)] + rows(shown, Style::plain(), Style::plain()) + seq![
        DrawV::RestorePosition,
    ]
}

/// What stands below the prompt where there is nothing to list.
pub open spec fn empty_part() -> Seq<DrawV> {
    seq![
        DrawV::MoveToNextLine(1),
        DrawV::Print("(no constants matched the regex)"@),
        DrawV::RestorePosition,
    ]
}

/// The cursor in the prompt.
pub open spec fn cursor_part(off: u16, style: CursorStyle) -> Seq<DrawV> {
    seq![DrawV::MoveRight((2 + off) as u16), DrawV::SetCursorStyle(style), DrawV::Show]
}

/// The row of the list that the cursor is on.
pub open spec fn row_part(shown: Seq<ConstV>, off: u16) -> Seq<DrawV> {
    if off < shown.len() {
        seq![
            DrawV::MoveToNextLine((1 + off) as u16),
            DrawV::Symbol(symbol(shown[off as int], Style::strong(), Style::strong())),
        ]
    } else {
        Seq::empty()
    }
}

/// The rows of the list that are selected, and among them the one that the
/// cursor is on.
pub open spec fn selection_part(shown: Seq<ConstV>, off: u16, selected: SelectionV) -> Seq<DrawV> {
    seq![DrawV::MoveToNextLine((1 + selected.start) as u16)] + rows(
        window(shown, selected.start as int, selected.end as int),
        Style::dimmed(),
        Style::strong(),
    ) + (if off < shown.len() {
        seq![
            DrawV::RestorePosition,
            DrawV::MoveToNextLine((1 + off) as u16),
            DrawV::Symbol(
                symbol(
                    shown[off as int],
                    Style { bold: true, underlined: true, dim: true },
                    Style::strong(),
                ),
            ),
        ]
    } else {
        Seq::empty()
    }) + seq![DrawV::RestorePosition, DrawV::MoveToNextLine((1 + off) as u16)]
}

impl StateV {
    /// The constants that are listed.
    pub open spec fn listed(self) -> Seq<ConstV> {
        constants(first_ten(self.handles), self.entries)
    }

    /// What is laid out: the prompt and the list.
    pub open spec fn layout(self) -> Seq<DrawV> {
        prompt_part(self.prompt) + (if self.handles.len() == 0 {
            empty_part()
        } else {
            list_part(self.listed())
        })
    }

    /// What is highlighted, and where the cursor goes.
    pub open spec fn finish(self) -> Seq<DrawV> {
        match (self.mode, self.pos.repr) {
            (Mode::Insert, PositionRepr::Prompt(col)) => cursor_part(col, CursorStyle::SteadyBar),
            (Mode::Normal, PositionRepr::Prompt(col)) => cursor_part(col, CursorStyle::SteadyBlock),
            (Mode::Normal, PositionRepr::List(row)) => row_part(self.listed(), row),
            (Mode::Select, PositionRepr::List(row)) => selection_part(
                self.listed(),
                row,
                self.selected,
            ),
            _ => Seq::empty(),
        }
    }

    /// All that is drawn.
    pub open spec fn drawing(self) -> Seq<DrawV> {
        self.layout() + self.finish()
    }
}

/// The cursor is on a row of the list that no symbol is shown in.
#[derive(Debug, Clone, Copy, PartialEq, Eq, Structural)]
pub struct DrawError;

impl DrawError {
    pub fn error(&self) -> (r: &'static str)
        ensures
            r@ == "offset into visual list of symbols was not within bounds of inner list"@,
    {
        "offset into visual list of symbols was not within bounds of inner list"
    }
}

/// Appends one command.
fn queue(out: &mut Vec<Draw>, command: Draw)
    ensures
        drawn(final(out)@) == drawn(old(out)@).push(command@),
{
    out.push(command);
    assert(drawn(out@) =~= drawn(old(out)@).push(command@));
}

fn print_reset(out: &mut Vec<Draw>)
    ensures
        drawn(final(out)@) == drawn(old(out)@) + seq![
            DrawV::Hide,
            DrawV::RestorePosition,
            DrawV::ClearFromCursorDown,
        ],
{
    queue(out, Draw::Hide);
    queue(out, Draw::RestorePosition);
    queue(out, Draw::ClearFromCursorDown);
    assert(drawn(out@) =~= drawn(old(out)@) + seq![
        DrawV::Hide,
        DrawV::RestorePosition,
        DrawV::ClearFromCursorDown,
    ]);
}

fn print_prompt(out: &mut Vec<Draw>, prompt: &str)
    ensures
        drawn(final(out)@) == drawn(old(out)@) + seq![
            DrawV::Print("> "@ + prompt@),
            DrawV::RestorePosition,
        ],
{
    queue(out, Draw::Print(joined("> ", prompt)));
    queue(out, Draw::RestorePosition);
    assert(drawn(out@) =~= drawn(old(out)@) + seq![
        DrawV::Print("> "@ + prompt@),
        DrawV::RestorePosition,
    ]);
}

fn print_empty(out: &mut Vec<Draw>)
    ensures
        drawn(final(out)@) == drawn(old(out)@) + empty_part(),
{
    queue(out, Draw::MoveToNextLine(1));
    queue(out, Draw::Print("(no constants matched the regex)".to_owned()));
    queue(out, Draw::RestorePosition);
    assert(drawn(out@) =~= drawn(old(out)@) + empty_part());
}

/// The constants that the elements hold, in order.
fn gather<'a, V: Visit>(list: &V, owner: &'a ConstContainer) -> (r: Vec<&'a Const>)
    requires
        fits(list.shown(), owner@.len()),
    ensures
        r@.len() == constants(list.shown(), owner@).len(),
        forall|i: int| 0 <= i < r@.len() ==> (#[trigger] r@[i])@ == constants(
            list.shown(),
            owner@,
        )[i],
{
    let elements: &[usize] = list.elements();
    let ghost handles = list.shown();
    let mut found: Vec<&'a Const> = Vec::new();
    let mut i: usize = 0;
    while i < elements.len()
        invariant
            i <= elements@.len(),
            handles == positions(elements@),
            fits(handles, owner@.len()),
            found@.len() == i,
            forall|j: int|
                0 <= j < i ==> (#[trigger] found@[j])@ == owner@[handles[j]].constant,
        decreases elements@.len() - i,
    {
        let k: usize = elements[i];
        assert(handles[i as int] == k);
        found.push(owner.get(k));
        i += 1;
    }
    found
}

/// The constants that the references are to.
pub open spec fn seen(list: Seq<&Const>) -> Seq<ConstV> {
    list.map_values(|c: &Const| c@)
}

fn print_list(out: &mut Vec<Draw>, list: &Vec<&Const>)
    ensures
        drawn(final(out)@) == drawn(old(out)@) + list_part(seen(list@)),
{
    queue(out, Draw::MoveToNextLine(1));
    let ghost head = drawn(out@);
    let mut i: usize = 0;
    assert(drawn(out@) =~= head + rows(seen(list@).take(0), Style::plain(), Style::plain()));
    while i < list.len()
        invariant
            i <= list@.len(),
            drawn(out@) == head + rows(
                seen(list@).take(i as int),
                Style::plain(),
                Style::plain(),
            ),
        decreases list@.len() - i,
    {
        let ghost before = seen(list@).take(i as int);
        let ghost after = seen(list@).take(i + 1);
        queue(out, Draw::Symbol(StylizedSymbol::from_constant(list[i])));
        queue(out, Draw::MoveToNextLine(1));
        assert(after.drop_last() =~= before);
        assert(drawn(out@) =~= head + rows(after, Style::plain(), Style::plain()));
        i += 1;
    }
    assert(seen(list@).take(list@.len() as int) =~= seen(list@));
    queue(out, Draw::RestorePosition);
    assert(drawn(out@) =~= drawn(old(out)@) + list_part(seen(list@)));
}

fn finalize_prompt(out: &mut Vec<Draw>, off: u16, style: CursorStyle)
    requires
        off <= u16::MAX - 2,
    ensures
        drawn(final(out)@) == drawn(old(out)@) + cursor_part(off, style),
{
    queue(out, Draw::MoveRight(2 + off));
    queue(out, Draw::SetCursorStyle(style));
    queue(out, Draw::Show);
    assert(drawn(out@) =~= drawn(old(out)@) + cursor_part(off, style));
}

fn finalize_insert_prompt(out: &mut Vec<Draw>, off: u16)
    requires
        off <= u16::MAX - 2,
    ensures
        drawn(final(out)@) == drawn(old(out)@) + cursor_part(off, CursorStyle::SteadyBar),
{
    finalize_prompt(out, off, CursorStyle::SteadyBar)
}

fn finalize_normal_prompt(out: &mut Vec<Draw>, off: u16)
    requires
        off <= u16::MAX - 2,
    ensures
        drawn(final(out)@) == drawn(old(out)@) + cursor_part(off, CursorStyle::SteadyBlock),
{
    finalize_prompt(out, off, CursorStyle::SteadyBlock)
}

fn finalize_normal_list(out: &mut Vec<Draw>, off: u16, list: &Vec<&Const>) -> (r: Result<
    (),
    DrawError,
>)
    requires
        off < u16::MAX,
    ensures
        r is Ok <==> off < list@.len(),
        drawn(final(out)@) == drawn(old(out)@) + row_part(seen(list@), off),
{
    if off as usize >= list.len() {
        assert(drawn(out@) =~= drawn(old(out)@) + row_part(seen(list@), off));
        return Err(DrawError);
    }
    let symbol: StylizedSymbol = StylizedSymbol::from_constant(list[off as usize]).for_ident(
        Style::new().bold().underlined(),
    ).for_mark(Style::new().bold().underlined());
    queue(out, Draw::MoveToNextLine(1 + off));
    queue(out, Draw::Symbol(symbol));
    assert(drawn(out@) =~= drawn(old(out)@) + row_part(seen(list@), off));
    Ok(())
}

fn finalize_select_list(out: &mut Vec<Draw>, off: u16, list: &Vec<&Const>, selected: &Selection)
    requires
        off < u16::MAX,
        selected@.start < u16::MAX,
    ensures
        drawn(final(out)@) == drawn(old(out)@) + selection_part(seen(list@), off, selected@),
{
    let start: u16 = selected.range().start;
    let end: u16 = selected.range().end;
    let mark: Style = Style::new().bold().underlined();
    queue(out, Draw::MoveToNextLine(1 + start));
    let ghost head = drawn(out@);
    let ghost picked = window(seen(list@), start as int, end as int);
    let mut i: usize = start as usize;
    assert(picked.take(0) =~= Seq::empty());
    assert(drawn(out@) =~= head + rows(picked.take(0), Style::dimmed(), Style::strong()));
    while i < end as usize && i < list.len()
        invariant
            start <= i,
            mark == Style::strong(),
            picked == window(seen(list@), start as int, end as int),
            i - start <= picked.len() || picked.len() == 0,
            i == start || i <= end && i <= list@.len(),
            drawn(out@) == head + rows(
                picked.take(i - start),
                Style::dimmed(),
                Style::strong(),
            ),
        decreases list@.len() - i,
    {
        let ghost before = picked.take(i - start);
        let ghost after = picked.take(i + 1 - start);
        let symbol: StylizedSymbol = StylizedSymbol::from_constant(list[i]).for_mark(mark).dim();
        assert(after.last() == seen(list@)[i as int]);
        queue(out, Draw::Symbol(symbol));
        queue(out, Draw::MoveToNextLine(1));
        assert(after.drop_last() =~= before);
        assert(drawn(out@) =~= head + rows(after, Style::dimmed(), Style::strong()));
        i += 1;
    }
    assert(picked.take(i - start) =~= picked);
    let ghost body = drawn(out@);
    let ghost cursor = if off < list@.len() {
        seq![
            DrawV::RestorePosition,
            DrawV::MoveToNextLine((1 + off) as u16),
            DrawV::Symbol(
                symbol(
                    seen(list@)[off as int],
                    Style { bold: true, underlined: true, dim: true },
                    Style::strong(),
                ),
            ),
        ]
    } else {
        Seq::empty()
    };
    if (off as usize) < list.len() {
        let symbol: StylizedSymbol = StylizedSymbol::from_constant(list[off as usize]).for_mark(
            mark,
        ).dim().bold().underlined();
        queue(out, Draw::RestorePosition);
        queue(out, Draw::MoveToNextLine(1 + off));
        queue(out, Draw::Symbol(symbol));
    }
    assert(drawn(out@) =~= body + cursor);
    queue(out, Draw::RestorePosition);
    queue(out, Draw::MoveToNextLine(1 + off));
    assert(drawn(out@) =~= drawn(old(out)@) + selection_part(seen(list@), off, selected@));
}

impl State {
    /// The constants that are listed: the first ten in view.
    fn select_first_ten(&self) -> (r: Vec<&Const>)
        requires
            self@.wf(),
        ensures
            seen(r@) == self@.listed(),
    {
        let len: usize = self.filter_buf().len();
        let end: usize = if len < 10 {
            len
        } else {
            10
        };
        let subset: BorrowedSubset<'_> = self.filter_buf().select(Range { start: 0usize, end });
        assert(subset.wf(self@.entries.len()));
        let r: Vec<&Const> = gather(&subset, self.constants());
        assert(subset.handles() =~= first_ten(self@.handles));
        assert(seen(r@) =~= self@.listed());
        r
    }

    /// Appends the commands that show the state. Where nothing is in view, the
    /// list is left for the prompt.
    ///
    /// # Errors
    ///
    /// Fails if the cursor is on a row of the list that no symbol is shown in, which
    /// it never is.
    pub fn draw(&mut self, out: &mut Vec<Draw>) -> (r: Result<(), DrawError>)
        requires
            old(self)@.wf(),
        ensures
            final(self)@ == old(self)@.settled(),
            final(self)@.wf(),
            drawn(final(out)@) == drawn(old(out)@) + final(self)@.drawing(),
            r is Ok,
    {
        let ghost before = drawn(out@);
        self.leave_empty_list();
        let list: Vec<&Const> = self.select_first_ten();
        assert(list@.len() == seen(list@).len());
        print_reset(out);
        print_prompt(out, self.prompt());
        if self.filter_buf().is_empty() {
            print_empty(out);
        } else {
            print_list(out, &list);
        }
        assert(drawn(out@) =~= before + self@.layout());
        let pos = self.pos();
        match (self.mode(), pos.repr) {
            (Mode::Insert, PositionRepr::Prompt(col)) => finalize_insert_prompt(out, col),
            (Mode::Normal, PositionRepr::Prompt(col)) => finalize_normal_prompt(out, col),
            (Mode::Normal, PositionRepr::List(row)) => {
                finalize_normal_list(out, row, &list)?;
            },
            (Mode::Select, PositionRepr::List(row)) => {
                finalize_select_list(out, row, &list, self.selected());
            },
            _ => (),
        }
        assert(drawn(out@) =~= before + self@.drawing());
        Ok(())
    }
}

/// Laying out the prompt and the list leaves the cursor at the start of the
/// prompt's row.
pub proof fn law_layout_restores(s: StateV)
    ensures
        s.layout().last() == DrawV::RestorePosition,
{
    if s.handles.len() > 0 {
        assert(list_part(s.listed()).last() == DrawV::RestorePosition);
    }
}

/// No more than ten constants are listed.
pub proof fn law_listed(s: StateV)
    ensures
        s.listed().len() <= 10,
{
}

} // verus!
