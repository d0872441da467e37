//! What the keys do to the state of the interface.

use crate::constant_container::borrowed::fits;
use crate::constant_container::visit::constants;
use crate::constant_container::{matching, EntryV};
use crate::law::viewing::{law_filter, law_marking};
use crate::pattern::pattern_language;
use crate::text::{byte_len, chars_before};
use crate::tui::event::{
    meaning, pressed, Input, KeyCode, KeyModifiers, Mode, ModeAction, RawUserEvent, UserEvent,
};
use crate::tui::position::{Position, PositionRepr};
use crate::tui::selection::{law_extend_spans, Dir, SelectionV};
use crate::tui::state::{popped, toggled, typed, StateV};
use vstd::prelude::*;
use vstd::utf8::{
    encode_scalar, encode_utf8, encode_utf8_first_scalar, encode_utf8_valid_utf8, is_char_boundary,
    pop_first_scalar,
};

verus! {

/// Whether all of the constants that the handles are on are deprecated, or none.
pub open spec fn all_are(entries: Seq<EntryV>, handles: Seq<int>, deprecated: bool) -> bool {
    forall|i: int|
        0 <= i < handles.len() ==> entries[#[trigger] handles[i]].constant.deprecated == deprecated
}

/// Toggling constants of which at least one is not deprecated, wherever it is among
/// them, leaves all of them deprecated. Toggling constants that all are leaves none
/// of them deprecated. No other constant is touched, and of those that are only the
/// state changes; they count as modified if it is not the one they entered with.
pub proof fn law_toggle_by_flags(entries: Seq<EntryV>, handles: Seq<int>, init: Seq<bool>)
    requires
        fits(handles, entries.len()),
        init.len() == handles.len(),
    ensures
        toggled(entries, handles, init).len() == entries.len(),
        forall|i: int|
            0 <= i < handles.len() && !entries[#[trigger] handles[i]].constant.deprecated
                ==> all_are(toggled(entries, handles, init), handles, true),
        all_are(entries, handles, true) ==> all_are(
            toggled(entries, handles, init),
            handles,
            false,
        ),
        forall|i: int|
            0 <= i < handles.len() ==> ({
                let was = entries[#[trigger] handles[i]];
                let is = toggled(entries, handles, init)[handles[i]];
                &&& is.constant.ident == was.constant.ident
                &&& is.constant.span == was.constant.span
                &&& is.constant.source == was.constant.source
                &&& is.modified == (is.constant.deprecated != init[i])
            }),
        forall|k: int|
            0 <= k < entries.len() && !handles.contains(k) ==> #[trigger] toggled(
                entries,
                handles,
                init,
            )[k] == entries[k],
{
    law_marking(entries, handles, init, true);
    law_marking(entries, handles, init, false);
    let shown = constants(handles, entries);
    assert forall|i: int|
        0 <= i < handles.len() && !entries[#[trigger] handles[i]].constant.deprecated implies all_are(
        toggled(entries, handles, init),
        handles,
        true,
    ) by {
        assert(!shown[i].deprecated);
    }
    if all_are(entries, handles, true) {
        assert forall|i: int| 0 <= i < shown.len() implies (#[trigger] shown[i]).deprecated by {
            assert(entries[handles[i]].constant.deprecated);
        }
    }
}

/// Whether `after` differs from `before` in the constants alone.
pub open spec fn only_entries(before: StateV, after: StateV) -> bool {
    &&& after.mode == before.mode
    &&& after.known == before.known
    &&& after.handles == before.handles
    &&& after.init == before.init
    &&& after.entered == before.entered
    &&& after.selected == before.selected
    &&& after.prompt == before.prompt
    &&& after.pos == before.pos
    &&& after.origin == before.origin
}

/// Whether the constants in the rows of the list between two others were toggled:
/// deprecated if one of them was not, and undeprecated otherwise. Nothing else
/// changed.
pub open spec fn rows_toggled(before: StateV, after: StateV, start: int, end: int) -> bool {
    let rows = before.handles.subrange(start, end);
    &&& only_entries(before, after)
    &&& after.entries.len() == before.entries.len()
    &&& all_are(before.entries, rows, true) ==> all_are(after.entries, rows, false)
    &&& forall|i: int|
        start <= i < end && !before.entries[#[trigger] before.handles[i]].constant.deprecated
            ==> all_are(after.entries, rows, true)
    &&& forall|i: int|
        start <= i < end ==> ({
            let was = before.entries[#[trigger] before.handles[i]];
            let is = after.entries[before.handles[i]];
            &&& is.constant.ident == was.constant.ident
            &&& is.constant.span == was.constant.span
            &&& is.constant.source == was.constant.source
            &&& is.modified == (is.constant.deprecated != before.entered[before.handles[i]]->0)
        })
    &&& forall|k: int|
        0 <= k < before.entries.len() && !rows.contains(k) ==> #[trigger] after.entries[k]
            == before.entries[k]
}

/// The space key toggles all constants in view in normal mode, and in select mode
/// those of the rows from the one that the selection started at to the one that the
/// cursor is on.
pub proof fn law_toggle_key(s: StateV, size: (u16, u16))
    requires
        s.wf(),
    ensures
        s.mode == Mode::Normal ==> rows_toggled(
            s,
            s.after(UserEvent::Toggle, size),
            0,
            s.handles.len() as int,
        ),
        s.mode == Mode::Select && s.handles.len() > 0 ==> rows_toggled(
            s,
            s.after(UserEvent::Toggle, size),
            s.selected.start as int,
            s.selected.end as int,
        ),
        s.mode == Mode::Select && s.handles.len() > 0 ==> ({
            let row = s.pos.repr->List_0;
            let pivot = s.selected.pivot;
            &&& s.selected.start == (if row < pivot {
                row
            } else {
                pivot
            })
            &&& s.selected.end == 1 + (if row < pivot {
                pivot
            } else {
                row
            })
        }),
        s.mode == Mode::Select && s.handles.len() == 0 ==> s.after(UserEvent::Toggle, size) == s,
{
    let after = s.after(UserEvent::Toggle, size);
    if s.mode == Mode::Normal {
        lemma_rows_toggled(s, 0, s.handles.len() as int);
        assert(s.handles.subrange(0, s.handles.len() as int) =~= s.handles);
        assert(s.init.subrange(0, s.init.len() as int) =~= s.init);
    } else if s.mode == Mode::Select {
        if s.handles.len() > 0 {
            lemma_rows_toggled(s, s.selected.start as int, s.selected.end as int);
        } else {
            assert(after.entries =~= s.entries);
        }
    }
}

proof fn lemma_rows_toggled(s: StateV, start: int, end: int)
    requires
        s.wf(),
        0 <= start <= end <= s.handles.len(),
    ensures
        rows_toggled(
            s,
            StateV {
                entries: toggled(
                    s.entries,
                    s.handles.subrange(start, end),
                    s.init.subrange(start, end),
                ),
                ..s
            },
            start,
            end,
        ),
{
    let rows = s.handles.subrange(start, end);
    let init = s.init.subrange(start, end);
    assert forall|i: int| 0 <= i < rows.len() implies 0 <= #[trigger] rows[i]
        < s.entries.len() by {
        assert(0 <= s.handles[start + i] < s.entries.len());
    }
    assert forall|i: int, j: int| 0 <= i < j < rows.len() implies #[trigger] rows[i]
        < #[trigger] rows[j] by {
        assert(s.handles[start + i] < s.handles[start + j]);
    }
    law_toggle_by_flags(s.entries, rows, init);
    let after = toggled(s.entries, rows, init);
    assert forall|i: int|
        start <= i < end && !s.entries[#[trigger] s.handles[i]].constant.deprecated implies all_are(
        after,
        rows,
        true,
    ) by {
        assert(rows[i - start] == s.handles[i]);
    }
    assert forall|i: int| start <= i < end implies ({
        let was = s.entries[#[trigger] s.handles[i]];
        let is = after[s.handles[i]];
        &&& is.constant.ident == was.constant.ident
        &&& is.constant.span == was.constant.span
        &&& is.constant.source == was.constant.source
        &&& is.modified == (is.constant.deprecated != s.entered[s.handles[i]]->0)
    }) by {
        assert(rows[i - start] == s.handles[i]);
        assert(init[i - start] == s.init[i]);
    }
}

proof fn lemma_chars_before(s: Seq<char>, byte: int)
    requires
        is_char_boundary(encode_utf8(s), byte),
    ensures
        0 <= chars_before(s, byte) <= s.len(),
        encode_utf8(s.take(chars_before(s, byte))).len() == byte,
        byte < encode_utf8(s).len() ==> chars_before(s, byte) < s.len(),
    decreases s.len(),
{
    encode_utf8_valid_utf8(s);
    if byte > 0 {
        if s.len() > 0 {
            let rest = s.drop_first();
            encode_utf8_first_scalar(s);
            let width = encode_scalar(s[0] as u32).len();
            assert(pop_first_scalar(encode_utf8(s)) =~= encode_utf8(rest));
            assert(s.skip(1) =~= rest);
            lemma_chars_before(rest, byte - width);
            let n = chars_before(rest, byte - width);
            assert(chars_before(s, byte) == 1 + n);
            let front = s.take(1 + n);
            assert(front.drop_first() =~= rest.take(n));
            assert(front[0] == s[0]);
        }
    } else {
        assert(s.take(0) =~= Seq::empty());
        if encode_utf8(s).len() > 0 {
            assert(s.len() > 0);
        }
    }
}

/// Whether `front` and `back` are the text before and after a byte position.
pub open spec fn split_at_byte(
    text: Seq<char>,
    front: Seq<char>,
    back: Seq<char>,
    byte: int,
) -> bool {
    text == front + back && encode_utf8(front).len() == byte
}

/// A character is typed between the text before the cursor and the text after it,
/// wherever the cursor is.
pub proof fn law_typed(prompt: Seq<char>, col: u16, c: char)
    requires
        is_char_boundary(encode_utf8(prompt), col as int),
        encode_utf8(prompt).len() <= usize::MAX,
    ensures
        exists|front: Seq<char>, back: Seq<char>| #[trigger]
            split_at_byte(prompt, front, back, col as int) && typed(prompt, col, c) == front
                + seq![c] + back,
{
    lemma_chars_before(prompt, col as int);
    let n = chars_before(prompt, col as int);
    if col == byte_len(prompt) {
        assert(prompt + Seq::empty() =~= prompt);
        assert(split_at_byte(prompt, prompt, Seq::empty(), col as int));
        assert(typed(prompt, col, c) =~= prompt + seq![c] + Seq::empty());
    } else {
        let front = prompt.take(n);
        let back = prompt.skip(n);
        assert(front + back =~= prompt);
        assert(split_at_byte(prompt, front, back, col as int));
        assert(typed(prompt, col, c) =~= front + seq![c] + back);
    }
}

/// The character at the cursor is removed and no other; at the end of the text it
/// is the last one.
pub proof fn law_popped(prompt: Seq<char>, col: u16)
    requires
        is_char_boundary(encode_utf8(prompt), col as int),
        encode_utf8(prompt).len() <= usize::MAX,
    ensures
        col < encode_utf8(prompt).len() ==> exists|front: Seq<char>, back: Seq<char>| #[trigger]
            split_at_byte(prompt, front, back, col as int) && back.len() > 0 && popped(prompt, col)
                == front + back.skip(1),
        col == encode_utf8(prompt).len() && prompt.len() > 0 ==> popped(prompt, col)
            == prompt.take(prompt.len() - 1),
        prompt.len() == 0 ==> popped(prompt, col) == prompt,
{
    lemma_chars_before(prompt, col as int);
    let n = chars_before(prompt, col as int);
    if col < encode_utf8(prompt).len() {
        let front = prompt.take(n);
        let back = prompt.skip(n);
        assert(front + back =~= prompt);
        assert(split_at_byte(prompt, front, back, col as int));
        assert(popped(prompt, col) =~= front + back.skip(1));
    } else if prompt.len() > 0 {
        assert(prompt.drop_last() =~= prompt.take(prompt.len() - 1));
    }
}

/// Typing and removing change the text of the prompt at the cursor, which then goes
/// one step on or back. Nothing else changes.
pub proof fn law_text_keys(s: StateV, c: char, size: (u16, u16))
    requires
        s.wf(),
        s.at_char(),
    ensures
        ({
            let after = s.after(UserEvent::TextualInput(c), size);
            let col = s.pos.repr->Prompt_0;
            &&& after == (StateV { prompt: typed(s.prompt, col, c), pos: after.pos, ..s })
            &&& after.pos.repr == PositionRepr::Prompt(
                if col + 2 < size.0 {
                    (col + 1) as u16
                } else {
                    col
                },
            )
        }),
        ({
            let after = s.after(UserEvent::Pop, size);
            let col = s.pos.repr->Prompt_0;
            &&& after == (StateV { prompt: popped(s.prompt, col), pos: after.pos, ..s })
            &&& after.pos.repr == PositionRepr::Prompt(
                if col > 0 {
                    (col - 1) as u16
                } else {
                    0
                },
            )
        }),
{
}

/// What each event leaves as it is: the constants but for toggling, the view but
/// for searching and clearing, the text but for typing, removing and clearing, and
/// the mode but for switching. What the constants entered with never changes.
pub proof fn law_frame(s: StateV, event: UserEvent, size: (u16, u16))
    requires
        s.wf(),
    ensures
        event != UserEvent::Toggle ==> s.after(event, size).entries == s.entries,
        !(event == UserEvent::Search || event == UserEvent::Clear) ==> s.after(event, size).handles
            == s.handles && s.after(event, size).init == s.init && s.after(event, size).known
            == s.known,
        !(event is TextualInput || event == UserEvent::Pop || event == UserEvent::Clear)
            ==> s.after(event, size).prompt == s.prompt,
        !(event is ModeAction || event == UserEvent::Switch) ==> s.after(event, size).mode
            == s.mode,
        !(event is ModeAction || event == UserEvent::Switch || event == UserEvent::Search)
            ==> s.after(event, size).selected == s.selected,
        event == UserEvent::Toggle || event == UserEvent::Effect ==> s.after(event, size).pos
            == s.pos,
        event == UserEvent::Effect ==> s.after(event, size) == s,
        s.after(event, size).entered == s.entered,
        s.after(event, size).origin == s.origin,
{
}

/// The size of the terminal is asked for where it makes a difference.
pub proof fn law_size(s: StateV, event: UserEvent, a: (u16, u16), b: (u16, u16))
    requires
        s.wf(),
        !s.wants_size(event),
    ensures
        s.after(event, a) == s.after(event, b),
{
}

/// Searching leaves in view the constants that the regex in the prompt finds a match
/// in, and no others. The cursor stays in the prompt, or goes to the first row.
pub proof fn law_search(s: StateV, size: (u16, u16))
    requires
        s.wf(),
    ensures
        ({
            let after = s.after(UserEvent::Search, size);
            &&& forall|k: int|
                0 <= k < s.entries.len() ==> (#[trigger] after.handles.contains(k)
                    <==> pattern_language(s.prompt, false, true) is Some && pattern_language(
                    s.prompt,
                    false,
                    true,
                )->0.contains(encode_utf8(s.entries[k].constant.ident)))
            &&& forall|i: int, j: int|
                0 <= i < j < after.handles.len() ==> #[trigger] after.handles[i]
                    < #[trigger] after.handles[j]
            &&& forall|i: int|
                0 <= i < after.handles.len() ==> 0 <= #[trigger] after.handles[i] < s.entries.len()
            &&& after.known == s.known.insert(s.prompt)
            &&& s.pos.repr is Prompt ==> after.pos == s.pos
            &&& s.pos.repr is List ==> after.pos.repr == PositionRepr::List(0)
            &&& after.selected.start == 0 && after.selected.end == 1 && after.selected.pivot == 0
        }),
{
    law_filter(s.entries, s.prompt);
    let found = s.after(UserEvent::Search, size).handles;
    assert(found == matching(
        s.entries,
        s.prompt,
        s.entries.len() as int,
    ));
    assert forall|i: int, j: int| 0 <= i < j < found.len() implies #[trigger] found[i]
        < #[trigger] found[j] by {
        assert(matching(
            s.entries,
            s.prompt,
            s.entries.len() as int,
        )[i] < found[j]);
    }
}

/// Clearing leaves an empty prompt, with the cursor at its start if it is in it,
/// and in view what `.*` finds a match in. An empty prompt is left alone.
pub proof fn law_clear(s: StateV, size: (u16, u16))
    requires
        s.wf(),
    ensures
        s.prompt.len() == 0 ==> s.after(UserEvent::Clear, size) == s,
        s.prompt.len() > 0 ==> ({
            let after = s.after(UserEvent::Clear, size);
            &&& after.prompt.len() == 0
            &&& s.pos.repr is Prompt ==> after.pos.repr == PositionRepr::Prompt(0)
            &&& s.pos.repr is List ==> after.pos == s.pos
            &&& forall|k: int|
                0 <= k < s.entries.len() ==> (#[trigger] after.handles.contains(k)
                    <==> pattern_language(".*"@, false, true) is Some && pattern_language(
                    ".*"@,
                    false,
                    true,
                )->0.contains(encode_utf8(s.entries[k].constant.ident)))
            &&& after.known == s.known.insert(".*"@)
        }),
{
    law_filter(s.entries, ".*"@);
}

/// The tab key goes from the prompt to the first row of the list and from any row to
/// the start of the prompt, in normal mode. With nothing in view it does nothing.
pub proof fn law_switch(s: StateV, size: (u16, u16))
    requires
        s.wf(),
    ensures
        s.handles.len() == 0 ==> s.after(UserEvent::Switch, size) == s,
        s.handles.len() > 0 ==> ({
            let after = s.after(UserEvent::Switch, size);
            &&& after.mode == Mode::Normal
            &&& s.pos.repr is Prompt ==> after.pos.repr == PositionRepr::List(0) && after.pos.row
                == s.origin + 1 && after.pos.col == 4
            &&& s.pos.repr is List ==> after.pos.repr == PositionRepr::Prompt(0) && after.pos.row
                == s.origin && after.pos.col == 2
            &&& after.selected.start == 0 && after.selected.end == 1 && after.selected.pivot == 0
        }),
{
}

/// Another mode is entered where that is possible: normal mode from any, insert mode
/// from normal and select mode, and select mode from normal mode in the list. Text
/// goes into the prompt, so insert mode leaves the list for it; a selection begins
/// with the row that the cursor is on.
pub proof fn law_modes(s: StateV, mode: Mode, size: (u16, u16))
    requires
        s.wf(),
    ensures
        ({
            let after = s.after(UserEvent::ModeAction(ModeAction::ModeSwitch(mode)), size);
            &&& mode == Mode::Normal ==> after.mode == Mode::Normal && after.pos == s.pos
            &&& mode == Mode::Insert ==> after.mode == Mode::Insert && after.pos.repr is Prompt
            &&& mode == Mode::Insert && s.pos.repr is Prompt ==> after.pos == s.pos
            &&& mode == Mode::Insert && s.pos.repr is List ==> after.pos.repr
                == PositionRepr::Prompt(0)
            &&& mode == Mode::Select && s.mode == Mode::Normal && s.pos.repr is List
                ==> after.mode == Mode::Select && after.pos == s.pos && after.selected.start
                == s.pos.repr->List_0 && after.selected.end == s.pos.repr->List_0 + 1
                && after.selected.pivot == s.pos.repr->List_0
            &&& mode == Mode::Select && !(s.mode == Mode::Normal && s.pos.repr is List) ==> after
                == s
            &&& mode != Mode::Select ==> after.selected.start == 0 && after.selected.end == 1
                && after.selected.pivot == 0
        }),
{
}

/// Left and right go by a column in the prompt, in normal mode: to its start, and
/// to the end of the text or the edge of the terminal. They do nothing elsewhere.
pub proof fn law_sideways(s: StateV, size: (u16, u16))
    requires
        s.wf(),
    ensures
        ({
            let left = s.after(UserEvent::ModeAction(ModeAction::GoLeft), size);
            let right = s.after(UserEvent::ModeAction(ModeAction::GoRight), size);
            let col = s.pos.repr->Prompt_0;
            &&& !(s.mode == Mode::Normal && s.pos.repr is Prompt) ==> left == s && right == s
            &&& s.mode == Mode::Normal && s.pos.repr is Prompt ==> left.pos.repr
                == PositionRepr::Prompt(
                if col > 0 {
                    (col - 1) as u16
                } else {
                    0
                },
            )
            &&& s.mode == Mode::Normal && s.pos.repr is Prompt && encode_utf8(s.prompt).len()
                <= usize::MAX ==> right.pos.repr == PositionRepr::Prompt(
                if col != encode_utf8(s.prompt).len() && col + 2 < size.0 {
                    (col + 1) as u16
                } else {
                    col
                },
            )
            &&& left.mode == s.mode && left.selected == s.selected
            &&& right.mode == s.mode && right.selected == s.selected
        }),
{
}

/// Up and down go by a row in the list: to its first row, and to the last that is
/// shown or fits the terminal. They do nothing in the prompt. In select mode the
/// rows between the one that the selection started at and the one that the cursor
/// is on are selected, and otherwise none is.
pub proof fn law_up_and_down(s: StateV, size: (u16, u16))
    requires
        s.wf(),
    ensures
        ({
            let up = s.after(UserEvent::ModeAction(ModeAction::GoUp), size);
            let down = s.after(UserEvent::ModeAction(ModeAction::GoDown), size);
            let row = s.pos.repr->List_0;
            &&& s.pos.repr is Prompt ==> up == s && down == s
            &&& s.pos.repr is List ==> up.pos.repr == PositionRepr::List(
                if row > 0 {
                    (row - 1) as u16
                } else {
                    0
                },
            )
            &&& s.pos.repr is List && s.handles.len() <= usize::MAX ==> down.pos.repr
                == PositionRepr::List(
                if row + 1 < s.handles.len() && row + 1 < 10 && row + 2 < size.1 {
                    (row + 1) as u16
                } else {
                    row
                },
            )
            &&& up.mode == s.mode && down.mode == s.mode
            &&& s.mode != Mode::Select ==> up.selected == s.selected && down.selected == s.selected
            &&& s.mode == Mode::Select ==> between(up.selected, s.selected.pivot, up.pos)
            &&& s.mode == Mode::Select ==> between(down.selected, s.selected.pivot, down.pos)
        }),
{
    if s.mode == Mode::Select {
        law_extend_spans(s.selected, s.pos.repr->List_0);
    }
}

/// Whether the rows between the pivot and that of the cursor are selected, both of
/// them included.
pub open spec fn between(selected: SelectionV, pivot: u16, pos: Position) -> bool {
    let row = pos.repr->List_0;
    &&& selected.pivot == pivot
    &&& selected.start == (if row < pivot {
        row
    } else {
        pivot
    })
    &&& selected.end == 1 + (if row < pivot {
        pivot
    } else {
        row
    })
}

/// The cursor is where the state says: in the prompt behind its mark, two columns
/// wide, and in the list below the prompt and behind the checkboxes, four columns
/// wide. In insert mode it is in the prompt, and in select mode in the list, on one
/// of the first ten rows.
pub proof fn law_cursor(s: StateV)
    requires
        s.wf(),
    ensures
        s.mode == Mode::Insert ==> s.pos.repr is Prompt,
        s.mode == Mode::Select ==> s.pos.repr is List,
        match s.pos.repr {
            PositionRepr::Prompt(col) => s.pos.row == s.origin && s.pos.col == col + 2,
            PositionRepr::List(row) => s.pos.row == s.origin + 1 + row && s.pos.col == 4 && row
                < 10,
        },
{
}

/// After a save the constants, and the states that they count as having entered
/// with, are those of the written file; all else stays as it is.
pub proof fn law_after_save(s: StateV, entries: Seq<EntryV>)
    requires
        s.wf(),
        entries.len() == s.entries.len(),
    ensures
        ({
            let after = s.after_take_over(entries);
            &&& after.entries == entries
            &&& forall|k: int|
                0 <= k < entries.len() ==> (#[trigger] after.entered[k]) == Some(
                    entries[k].constant.deprecated != entries[k].modified,
                )
            &&& after.mode == s.mode && after.handles == s.handles && after.selected == s.selected
            &&& after.prompt == s.prompt && after.pos == s.pos && after.known == s.known
            &&& after.origin == s.origin
            &&& after.init.len() == s.handles.len()
            &&& forall|m: int|
                0 <= m < s.handles.len() ==> #[trigger] after.init[m]
                    == after.entered[s.handles[m]]->0
        }),
{
}

/// A key that stands for a character is text in insert mode, whichever it is.
/// Elsewhere it means something only if it is one of those that move around, or, in
/// normal mode, one of those that lead to another mode.
pub proof fn law_characters(c: char)
    ensures
        meaning(Mode::Insert, RawUserEvent::PlainText(c)) == Some(UserEvent::TextualInput(c)),
        meaning(Mode::Select, RawUserEvent::PlainText(c)) is Some <==> c == 'h' || c == 'j' || c
            == 'k' || c == 'l',
        meaning(Mode::Normal, RawUserEvent::PlainText(c)) is Some <==> c == 'h' || c == 'j' || c
            == 'k' || c == 'l' || c == 'i' || c == 'v',
        c == 'h' || c == 'j' || c == 'k' || c == 'l' ==> meaning(
            Mode::Normal,
            RawUserEvent::PlainText(c),
        ) == meaning(Mode::Select, RawUserEvent::PlainText(c)),
{
}

/// No two keys mean the same in a mode, but for the space key and a space that is
/// typed.
pub proof fn law_keys_differ(mode: Mode, a: RawUserEvent, b: RawUserEvent)
    requires
        a != b,
        meaning(mode, a) is Some,
        meaning(mode, a) == meaning(mode, b),
    ensures
        mode == Mode::Insert,
        a == RawUserEvent::Space || b == RawUserEvent::Space,
        meaning(mode, a) == Some(UserEvent::TextualInput(' ')),
{
}

/// A key that goes down without modifiers is handed on, if it is known: a character
/// as itself, but for the space key. With modifiers only three combinations mean
/// anything: shift and return, and control with `c` or `d`, which end the program.
pub proof fn law_keys_pressed(code: KeyCode, modifiers: KeyModifiers, c: char)
    ensures
        c != ' ' ==> pressed(KeyCode::Char(c), KeyModifiers::Bare) == Input::Send(
            RawUserEvent::PlainText(c),
        ),
        pressed(KeyCode::Char(' '), KeyModifiers::Bare) == Input::Send(RawUserEvent::Space),
        pressed(code, modifiers) == Input::Stop <==> modifiers == KeyModifiers::Control && (code
            == KeyCode::Char('c') || code == KeyCode::Char('d')),
        pressed(code, modifiers) is Send <==> modifiers == KeyModifiers::Bare && code
            != KeyCode::Other || modifiers == KeyModifiers::Shift && code == KeyCode::Enter,
{
}

/// A step on or back goes by one, in the prompt by a column and in the list by a row,
/// and both in the grid and relative to the part of the screen. It is not taken at
/// the start, nor where the next column or row is the last of the terminal or
/// beyond, nor past the end of the list or its tenth row.
pub proof fn law_steps(p: Position, count: usize, size: (u16, u16))
    ensures
        match p.repr {
            PositionRepr::Prompt(c) => {
                &&& c + 2 < size.0 && p.col < u16::MAX ==> p.advanced(count, size) == (Position {
                    repr: PositionRepr::Prompt((c + 1) as u16),
                    row: p.row,
                    col: (p.col + 1) as u16,
                })
                &&& c + 2 >= size.0 ==> p.advanced(count, size) == p
                &&& c > 0 && p.col > 0 ==> p.retracted() == (Position {
                    repr: PositionRepr::Prompt((c - 1) as u16),
                    row: p.row,
                    col: (p.col - 1) as u16,
                })
                &&& c > 0 && p.col == 0 ==> p.retracted() == (Position {
                    repr: PositionRepr::Prompt((c - 1) as u16),
                    row: p.row,
                    col: 0,
                })
                &&& c == 0 ==> p.retracted() == p
            },
            PositionRepr::List(r) => {
                &&& r + 1 < count && r < 9 && r + 2 < size.1 && p.row < u16::MAX ==> p.advanced(
                    count,
                    size,
                ) == (Position {
                    repr: PositionRepr::List((r + 1) as u16),
                    row: (p.row + 1) as u16,
                    col: p.col,
                })
                &&& r + 1 >= count || r >= 9 || r + 2 >= size.1 ==> p.advanced(count, size) == p
                &&& r > 0 && p.row > 0 ==> p.retracted() == (Position {
                    repr: PositionRepr::List((r - 1) as u16),
                    row: (p.row - 1) as u16,
                    col: p.col,
                })
                &&& r == 0 ==> p.retracted() == p
            },
        },
{
}

/// The other part of the screen is entered at its start.
pub proof fn law_other_part(p: Position, origin: u16)
    requires
        origin < u16::MAX,
    ensures
        p.repr is Prompt ==> p.transitioned(origin) == (Position {
            repr: PositionRepr::List(0),
            row: (origin + 1) as u16,
            col: 4,
        }),
        p.repr is List ==> p.transitioned(origin) == (Position {
            repr: PositionRepr::Prompt(0),
            row: origin,
            col: 2,
        }),
{
}

/// The row at the far end of a selection from its pivot.
pub open spec fn far_end(s: SelectionV) -> int {
    if s.start < s.pivot {
        s.start as int
    } else {
        s.end - 1
    }
}

/// Extending a selection moves one of its ends by a row at most, and never its pivot.
/// Going up moves the start up above the pivot, and the end up otherwise; going down
/// moves the start down up to the pivot, and the end down otherwise. It keeps at
/// least one row, and no more than ten rows are selected.
pub proof fn law_extend(s: SelectionV, dir: Dir, row: u16)
    requires
        s.start < s.end,
        s.end <= 10,
    ensures
        ({
            let after = s.extended(dir, row);
            &&& after.pivot == s.pivot
            &&& after.start < after.end <= 10
            &&& dir == Dir::Up && row < s.pivot ==> after.end == s.end && (if s.start > 0 {
                after.start == s.start - 1
            } else {
                after.start == 0
            })
            &&& dir == Dir::Up && row >= s.pivot ==> after.start == s.start && (if s.end > s.start
                + 1 {
                after.end == s.end - 1
            } else {
                after.end == s.end
            })
            &&& dir == Dir::Down && row <= s.pivot && row != far_end(s) ==> after.end == s.end && (
            if s.end > s.start + 1 {
                after.start == s.start + 1
            } else {
                after.start == s.start
            })
            &&& dir == Dir::Down && row > s.pivot && row != far_end(s) ==> after.start == s.start && (
            if s.end < 10 {
                after.end == s.end + 1
            } else {
                after.end == s.end
            })
            &&& dir == Dir::Down && s.start < s.pivot && row == s.start ==> after == s
            &&& dir == Dir::Down && s.start >= s.pivot && row + 1 == s.end ==> after == s
        }),
{
}

} // verus!
