//! What the terminal shows.

use crate::constant::ConstV;
use crate::constant_container::visit::window;
use crate::law::viewing::law_window;
use crate::tui::event::Mode;
use crate::tui::position::PositionRepr;
use crate::tui::screen::{
    drawn, list_part, rows, selection_part, symbol, CursorStyle, Draw, DrawV, Style, SymbolV,
};
use crate::tui::state::StateV;
use vstd::prelude::*;

verus! {

/// The attributes that a piece of text is shown with.
pub open spec fn styled(bold: bool, underlined: bool, dim: bool) -> Style {
    Style { bold, underlined, dim }
}

/// Whether the command shows a constant as it is, with the given styles.
pub open spec fn shows_constant(
    draw: DrawV,
    c: ConstV,
    ident_style: Style,
    mark_style: Style,
) -> bool {
    match draw {
        DrawV::Symbol(v) => {
            &&& v.ident == c.ident
            &&& v.deprecated == c.deprecated
            &&& v.ident_style == ident_style
            &&& v.mark_style == mark_style
        },
        _ => false,
    }
}

/// Whether the command at an index shows a constant as it is, and the next one goes
/// to the row below.
pub open spec fn row_at(
    all: Seq<DrawV>,
    d: int,
    c: ConstV,
    ident_style: Style,
    mark_style: Style,
) -> bool {
    &&& 0 <= d < all.len() - 1
    &&& shows_constant(all[d], c, ident_style, mark_style)
    &&& all[d + 1] == DrawV::MoveToNextLine(1)
}

proof fn lemma_rows(shown: Seq<ConstV>, ident_style: Style, mark_style: Style)
    ensures
        rows(shown, ident_style, mark_style).len() == 2 * shown.len(),
        forall|i: int|
            0 <= i < shown.len() ==> row_at(
                rows(shown, ident_style, mark_style),
                2 * i,
                #[trigger] shown[i],
                ident_style,
                mark_style,
            ),
    decreases shown.len(),
{
    if shown.len() > 0 {
        let shorter = shown.drop_last();
        let before = rows(shorter, ident_style, mark_style);
        let all = rows(shown, ident_style, mark_style);
        lemma_rows(shorter, ident_style, mark_style);
        assert forall|i: int| 0 <= i < shown.len() implies row_at(
            all,
            2 * i,
            #[trigger] shown[i],
            ident_style,
            mark_style,
        ) by {
            if i < shorter.len() {
                assert(shorter[i] == shown[i]);
                assert(all[2 * i] == before[2 * i]);
                assert(all[2 * i + 1] == before[2 * i + 1]);
            }
        }
    }
}

/// The constants that are listed are the first in view, up to ten.
pub proof fn law_listed_first(s: StateV)
    ensures
        s.listed().len() == (if s.handles.len() < 10 {
            s.handles.len()
        } else {
            10
        }),
        forall|i: int|
            0 <= i < s.listed().len() ==> #[trigger] s.listed()[i]
                == s.entries[s.handles[i]].constant,
{
}

/// The screen is blanked, and the prompt shows all of its text.
pub proof fn law_prompt_drawn(s: StateV)
    ensures
        s.drawing().len() >= 8,
        s.drawing()[0] == DrawV::Hide,
        s.drawing()[1] == DrawV::RestorePosition,
        s.drawing()[2] == DrawV::ClearFromCursorDown,
        s.drawing()[3] == DrawV::Print("> "@ + s.prompt),
        s.drawing()[4] == DrawV::RestorePosition,
        s.drawing()[5] == DrawV::MoveToNextLine(1),
        s.handles.len() == 0 ==> s.drawing()[6] == DrawV::Print(
            "(no constants matched the regex)"@,
        ) && s.drawing()[7] == DrawV::RestorePosition,
{
    if s.handles.len() > 0 {
        lemma_rows(s.listed(), Style::plain(), Style::plain());
    }
}

/// Each of the constants that are listed has a row of its own below the prompt, in
/// order, which shows its name and whether it is deprecated.
pub proof fn law_list_drawn(s: StateV)
    requires
        s.handles.len() > 0,
    ensures
        forall|i: int|
            0 <= i < s.listed().len() ==> row_at(
                s.drawing(),
                6 + 2 * i,
                #[trigger] s.listed()[i],
                styled(false, false, false),
                styled(false, false, false),
            ),
        s.drawing()[6 + 2 * (s.listed().len() as int)] == DrawV::RestorePosition,
        s.layout().len() == 7 + 2 * s.listed().len(),
{
    let shown = s.listed();
    let all = rows(shown, Style::plain(), Style::plain());
    lemma_rows(shown, Style::plain(), Style::plain());
    assert forall|i: int| 0 <= i < shown.len() implies row_at(
        s.drawing(),
        6 + 2 * i,
        #[trigger] shown[i],
        styled(false, false, false),
        styled(false, false, false),
    ) by {
        assert(s.drawing()[6 + 2 * i] == all[2 * i]);
        assert(s.drawing()[7 + 2 * i] == all[2 * i + 1]);
    }
}

/// In the prompt, the cursor goes behind the mark and the text before it. It is a bar
/// in insert mode, and a block in normal mode.
pub proof fn law_prompt_cursor_drawn(s: StateV)
    requires
        s.wf(),
        s.pos.repr is Prompt,
    ensures
        ({
            let n = s.layout().len() as int;
            &&& s.drawing().len() == n + 3
            &&& s.drawing()[n] == DrawV::MoveRight((s.pos.repr->Prompt_0 + 2) as u16)
            &&& s.mode == Mode::Insert ==> s.drawing()[n + 1] == DrawV::SetCursorStyle(
                CursorStyle::SteadyBar,
            )
            &&& s.mode == Mode::Normal ==> s.drawing()[n + 1] == DrawV::SetCursorStyle(
                CursorStyle::SteadyBlock,
            )
            &&& s.drawing()[n + 2] == DrawV::Show
        }),
{
}

/// In the list, in normal mode, the row of the cursor shows its constant once more,
/// bold and underlined.
pub proof fn law_list_cursor_drawn(s: StateV)
    requires
        s.wf(),
        s.mode == Mode::Normal,
        s.pos.repr is List,
        s.handles.len() > 0,
    ensures
        ({
            let n = s.layout().len() as int;
            let row = s.pos.repr->List_0;
            &&& s.drawing().len() == n + 2
            &&& s.drawing()[n] == DrawV::MoveToNextLine((row + 1) as u16)
            &&& shows_constant(
                s.drawing()[n + 1],
                s.listed()[row as int],
                styled(true, true, false),
                styled(true, true, false),
            )
        }),
{
}

/// In select mode, each of the selected rows shows its constant once more, dimmed
/// and with a highlighted mark, and so does that of the cursor, bold and underlined.
/// Whether a constant is deprecated is shown of each as it is.
pub proof fn law_selection_drawn(s: StateV)
    requires
        s.wf(),
        s.mode == Mode::Select,
        s.handles.len() > 0,
    ensures
        ({
            let n = s.layout().len() as int;
            let row = s.pos.repr->List_0;
            let start = s.selected.start as int;
            let count = s.selected.end - s.selected.start;
            &&& 0 < count && s.selected.end <= s.listed().len() && row < s.listed().len()
            &&& s.drawing().len() == n + 2 * count + 6
            &&& s.drawing()[n] == DrawV::MoveToNextLine((start + 1) as u16)
            &&& forall|k: int|
                start <= k < s.selected.end ==> row_at(
                    s.drawing(),
                    n + 1 + 2 * (k - start),
                    #[trigger] s.listed()[k],
                    styled(false, false, true),
                    styled(true, true, false),
                )
            &&& s.drawing()[n + 2 * count + 1] == DrawV::RestorePosition
            &&& s.drawing()[n + 2 * count + 2] == DrawV::MoveToNextLine((row + 1) as u16)
            &&& shows_constant(
                s.drawing()[n + 2 * count + 3],
                s.listed()[row as int],
                styled(true, true, true),
                styled(true, true, false),
            )
            &&& s.drawing()[n + 2 * count + 4] == DrawV::RestorePosition
            &&& s.drawing()[n + 2 * count + 5] == DrawV::MoveToNextLine((row + 1) as u16)
        }),
{
    let n = s.layout().len() as int;
    let start = s.selected.start as int;
    let count = s.selected.end - s.selected.start;
    let shown = s.listed();
    law_listed_first(s);
    law_window(shown, start, s.selected.end as int);
    let part = window(shown, start, s.selected.end as int);
    let all = rows(part, Style::dimmed(), Style::strong());
    lemma_rows(part, Style::dimmed(), Style::strong());
    assert(s.finish() == selection_part(shown, s.pos.repr->List_0, s.selected));
    assert forall|k: int| start <= k < s.selected.end implies row_at(
        s.drawing(),
        n + 1 + 2 * (k - start),
        #[trigger] shown[k],
        styled(false, false, true),
        styled(true, true, false),
    ) by {
        assert(part[k - start] == shown[k]);
        assert(s.drawing()[n + 1 + 2 * (k - start)] == all[2 * (k - start)]);
        assert(s.drawing()[n + 2 + 2 * (k - start)] == all[2 * (k - start) + 1]);
    }
}

/// Whether a constant is listed that the symbol is of, and is deprecated if the
/// symbol says so.
pub open spec fn true_of_listed(s: StateV, v: SymbolV) -> bool {
    exists|i: int|
        0 <= i < s.listed().len() && (#[trigger] s.listed()[i]).ident == v.ident
            && s.listed()[i].deprecated == v.deprecated
}

proof fn lemma_rows_true(s: StateV, shown: Seq<ConstV>, ident_style: Style, mark_style: Style)
    requires
        forall|i: int| 0 <= i < shown.len() ==> s.listed().contains(#[trigger] shown[i]),
    ensures
        forall|d: int|
            0 <= d < rows(shown, ident_style, mark_style).len() && (#[trigger] rows(
                shown,
                ident_style,
                mark_style,
            )[d]) is Symbol ==> true_of_listed(
                s,
                rows(shown, ident_style, mark_style)[d]->Symbol_0,
            ),
{
    let all = rows(shown, ident_style, mark_style);
    lemma_rows(shown, ident_style, mark_style);
    assert forall|d: int| 0 <= d < all.len() && (
    #[trigger] all[d]) is Symbol implies true_of_listed(s, all[d]->Symbol_0) by {
        let i = d / 2;
        assert(s.listed().contains(shown[i]));
        let j = s.listed().index_of(shown[i]);
        assert(s.listed()[j] == shown[i]);
        assert(row_at(all, 2 * i, shown[i], ident_style, mark_style));
    }
}

/// Every symbol that is drawn is that of a constant in the list, and shows whether
/// that one is deprecated.
pub proof fn law_symbols_true(s: StateV)
    ensures
        forall|d: int|
            0 <= d < s.drawing().len() && (#[trigger] s.drawing()[d]) is Symbol ==> true_of_listed(
                s,
                s.drawing()[d]->Symbol_0,
            ),
{
    let n = s.layout().len() as int;
    let shown = s.listed();
    let plain = rows(shown, Style::plain(), Style::plain());
    lemma_rows_true(s, shown, Style::plain(), Style::plain());
    let start = s.selected.start as int;
    let part = window(shown, start, s.selected.end as int);
    law_window(shown, start, s.selected.end as int);
    let dimmed = rows(part, Style::dimmed(), Style::strong());
    assert forall|i: int| 0 <= i < part.len() implies shown.contains(#[trigger] part[i]) by {
        assert(part[i] == shown[start + i]);
    }
    lemma_rows_true(s, part, Style::dimmed(), Style::strong());
    assert forall|d: int| 0 <= d < s.drawing().len() && (
    #[trigger] s.drawing()[d]) is Symbol implies true_of_listed(
        s,
        s.drawing()[d]->Symbol_0,
    ) by {
        let v = s.drawing()[d]->Symbol_0;
        if d < n {
            assert(s.drawing()[d] == s.layout()[d]);
            if s.handles.len() > 0 {
                assert(s.layout()[d] == list_part(shown)[d - 5]);
                assert(list_part(shown)[d - 5] == plain[d - 6]);
            }
        } else {
            let e = d - n;
            assert(s.drawing()[d] == s.finish()[e]);
            if s.mode == Mode::Normal && s.pos.repr is List {
                let row = s.pos.repr->List_0 as int;
                assert(v == symbol(shown[row], Style::strong(), Style::strong()));
                assert(shown[row].ident == v.ident);
            } else if s.mode == Mode::Select && s.pos.repr is List {
                let row = s.pos.repr->List_0 as int;
                assert(s.finish() == selection_part(shown, s.pos.repr->List_0, s.selected));
                if 1 <= e < 1 + dimmed.len() {
                    assert(s.finish()[e] == dimmed[e - 1]);
                } else {
                    assert(row < shown.len());
                    assert(shown[row].ident == v.ident);
                }
            }
        }
    }
}

/// The list is left for the prompt where nothing is in view, and is otherwise shown
/// as it is.
pub proof fn law_settled(s: StateV)
    ensures
        s.handles.len() > 0 || s.pos.repr is Prompt ==> s.settled() == s,
        s.handles.len() == 0 && s.pos.repr is List ==> s.settled().pos.repr
            == PositionRepr::Prompt(0) && s.settled().mode == Mode::Normal,
        s.settled().entries == s.entries,
        s.settled().handles == s.handles,
        s.settled().prompt == s.prompt,
        s.settled().entered == s.entered,
{
}

/// What is drawn is one command after the other.
pub proof fn law_drawn(out: Seq<Draw>)
    ensures
        drawn(out).len() == out.len(),
        forall|i: int|
            0 <= i < out.len() ==> match #[trigger] out[i] {
                Draw::Hide => drawn(out)[i] == DrawV::Hide,
                Draw::Show => drawn(out)[i] == DrawV::Show,
                Draw::RestorePosition => drawn(out)[i] == DrawV::RestorePosition,
                Draw::ClearFromCursorDown => drawn(out)[i] == DrawV::ClearFromCursorDown,
                Draw::Print(text) => drawn(out)[i] == DrawV::Print(text@),
                Draw::Symbol(symbol) => drawn(out)[i] == DrawV::Symbol(symbol@),
                Draw::MoveToNextLine(n) => drawn(out)[i] == DrawV::MoveToNextLine(n),
                Draw::MoveRight(n) => drawn(out)[i] == DrawV::MoveRight(n),
                Draw::SetCursorStyle(style) => drawn(out)[i] == DrawV::SetCursorStyle(style),
            },
{
}

} // verus!
