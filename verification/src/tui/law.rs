//! What holds of the state, whatever the user does.

use crate::constant_container::borrowed::{fits, law_marked, law_marked_again, marked};
use crate::constant_container::visit::constants;
use crate::constant_container::EntryV;
use crate::text::chars_before;
use crate::tui::event::{Mode, UserEvent};
use crate::tui::state::{all_marked, clip, toggled, visible, StateV};
use vstd::prelude::*;
use vstd::utf8::{
    encode_utf8, encode_utf8_first_scalar, encode_utf8_valid_utf8, is_ascii_chars,
    is_ascii_chars_encode_utf8, is_char_boundary, pop_first_scalar,
};

verus! {

/// Whether the constants that are marked as modified are exactly those that
/// are not as they were to begin with.
pub open spec fn faithful(s: StateV) -> bool {
    forall|k: int|
        0 <= k < s.entries.len() ==> (#[trigger] s.entries[k]).modified == (
        s.entries[k].constant.deprecated != s.entered[k]->0)
}

/// This holds to begin with, when none of the constants is modified.
pub proof fn law_changes_known_at_first(s: StateV)
    requires
        s.entered == s.entries.map_values(|e: EntryV| Some(e.constant.deprecated)),
        forall|k: int| 0 <= k < s.entries.len() ==> !(#[trigger] s.entries[k]).modified,
    ensures
        faithful(s),
{
}

/// The constants that are marked as modified are those that are not as they were
/// to begin with, whatever the user does. So undoing a change leaves nothing to
/// be effected to disk.
pub proof fn law_changes_known(s: StateV, event: UserEvent, size: (u16, u16))
    requires
        s.wf(),
        s.accepts(event, Some(size)),
        faithful(s),
    ensures
        faithful(s.after(event, size)),
{
    if event == UserEvent::Toggle {
        if s.mode == Mode::Normal {
            lemma_toggled_faithful(s, 0, s.handles.len() as int);
            assert(s.handles.subrange(0, s.handles.len() as int) =~= s.handles);
            assert(s.init.subrange(0, s.init.len() as int) =~= s.init);
        } else {
            let (start, end) = clip(s.selected, s.handles.len());
            lemma_toggled_faithful(s, start, end);
        }
    }
}

proof fn lemma_toggled_faithful(s: StateV, start: int, end: int)
    requires
        s.wf(),
        0 <= start <= end <= s.handles.len(),
        faithful(s),
    ensures
        faithful(
            StateV {
                entries: toggled(
                    s.entries,
                    s.handles.subrange(start, end),
                    s.init.subrange(start, end),
                ),
                ..s
            },
        ),
{
    let handles = s.handles.subrange(start, end);
    let init = s.init.subrange(start, end);
    let entries = toggled(s.entries, handles, init);
    let yes = !all_marked(constants(handles, s.entries));
    assert forall|k: int| 0 <= k < entries.len() implies (#[trigger] entries[k]).modified == (
    entries[k].constant.deprecated != s.entered[k]->0) by {
        lemma_part_fits(s.handles, s.entries.len(), start, end);
        law_marked(s.entries, handles, init, yes, k);
        if handles.contains(k) {
            let m = handles.index_of(k);
            assert(s.handles[start + m] == k);
            assert(init[m] == s.init[start + m]);
            assert(handles[m] == k);
        } else {
            assert(entries[k] == s.entries[k]);
        }
    }
}

/// Toggling leaves the constants it reaches all in one state: deprecated, unless
/// they all were.
pub proof fn law_toggle(entries: Seq<EntryV>, handles: Seq<int>, init: Seq<bool>, k: int)
    requires
        fits(handles, entries.len()),
        init.len() == handles.len(),
        0 <= k < entries.len(),
    ensures
        handles.contains(k) ==> toggled(entries, handles, init)[k].constant.deprecated
            == !all_marked(constants(handles, entries)),
        !handles.contains(k) ==> toggled(entries, handles, init)[k] == entries[k],
{
}

/// Toggling twice deprecates all the constants it reaches, if they all were to
/// begin with, and undeprecates them otherwise.
pub proof fn law_toggle_twice(entries: Seq<EntryV>, handles: Seq<int>, init: Seq<bool>)
    requires
        fits(handles, entries.len()),
        init.len() == handles.len(),
        constants(handles, entries).len() > 0,
    ensures
        toggled(toggled(entries, handles, init), handles, init) == marked(
            entries,
            handles,
            init,
            all_marked(constants(handles, entries)),
        ),
{
    let yes = !all_marked(constants(handles, entries));
    let once = toggled(entries, handles, init);
    let shown = constants(handles, once);
    assert forall|p: int| 0 <= p < shown.len() implies (#[trigger] shown[p]).deprecated == yes by {
        assert(handles.contains(handles[p]));
    }
    assert(shown[0].deprecated == yes);
    assert(all_marked(shown) == yes);
    law_marked_again(entries, handles, init, yes, !yes);
}

proof fn lemma_part_fits(handles: Seq<int>, n: nat, start: int, end: int)
    requires
        fits(handles, n),
        0 <= start <= end <= handles.len(),
    ensures
        fits(handles.subrange(start, end), n),
{
    let part = handles.subrange(start, end);
    assert forall|i: int| 0 <= i < part.len() implies 0 <= #[trigger] part[i] < n by {
        assert(0 <= handles[i + start] < n);
    }
    assert forall|i: int, j: int| 0 <= i < j < part.len() implies #[trigger] part[i]
        < #[trigger] part[j] by {
        assert(handles[i + start] < handles[j + start]);
    }
}

/// This still holds after the contents of a written file were taken over.
pub proof fn law_changes_known_after_save(s: StateV, entries: Seq<EntryV>)
    requires
        s.wf(),
        entries.len() == s.entries.len(),
    ensures
        faithful(s.after_take_over(entries)),
{
}

/// A selection never reaches beyond what is in view, unless nothing is.
pub proof fn law_selection_in_view(s: StateV)
    requires
        s.wf(),
        s.handles.len() > 0,
    ensures
        s.selected.start < s.selected.end <= s.handles.len(),
{
}

/// Where there is anything in view, the cursor is on a row of the list that a symbol
/// is shown in.
pub proof fn law_cursor_on_symbol(s: StateV)
    requires
        s.wf(),
        s.settled().pos.repr is List,
    ensures
        s.settled().pos.repr->List_0 < s.settled().listed().len(),
{
}

/// Whether the prompt is ASCII, and the cursor, if it is in the prompt, not
/// behind its end.
pub open spec fn in_text(s: StateV) -> bool {
    &&& is_ascii_chars(s.prompt)
    &&& s.pos.repr is Prompt ==> s.col() <= s.prompt.len()
}

/// As long as only ASCII is typed, the cursor in the prompt is never behind the
/// end of its text.
pub proof fn law_cursor_in_text(s: StateV, event: UserEvent, size: (u16, u16))
    requires
        s.wf(),
        s.accepts(event, Some(size)),
        in_text(s),
        match event {
            UserEvent::TextualInput(c) => c as u32 <= 127,
            _ => true,
        },
        s.prompt.len() < usize::MAX,
    ensures
        in_text(s.after(event, size)),
{
    lemma_ascii(s.prompt);
    match event {
        UserEvent::TextualInput(c) => {
            lemma_chars_before(s.prompt, s.col() as int);
        },
        UserEvent::Pop => {
            lemma_chars_before(s.prompt, s.col() as int);
        },
        _ => {},
    }
}

/// As long as only ASCII is typed, text can be typed and removed wherever the
/// cursor is in the prompt.
pub proof fn law_prompt_accepts(s: StateV, c: char, size: (u16, u16))
    requires
        s.wf(),
        in_text(s),
        s.pos.repr is Prompt,
        visible(Some(size)),
    ensures
        s.accepts(UserEvent::TextualInput(c), Some(size)),
        s.accepts(UserEvent::Pop, Some(size)),
{
    lemma_ascii(s.prompt);
    lemma_ascii_boundary(s.prompt, s.col() as int);
}

proof fn lemma_ascii(s: Seq<char>)
    requires
        is_ascii_chars(s),
    ensures
        encode_utf8(s).len() == s.len(),
{
    is_ascii_chars_encode_utf8(s);
}

proof fn lemma_chars_before(s: Seq<char>, byte: int)
    requires
        is_ascii_chars(s),
        0 <= byte <= s.len(),
    ensures
        chars_before(s, byte) == byte,
    decreases s.len(),
{
    if byte > 0 {
        assert(s.skip(1) =~= s.drop_first());
        assert forall|i: int| 0 <= i < s.skip(1).len() implies '\0' <= #[trigger] s.skip(1)[i]
            <= '\u{7f}' by {
            assert(s.skip(1)[i] == s[i + 1]);
        }
        lemma_chars_before(s.skip(1), byte - 1);
        assert('\0' <= s[0] <= '\u{7f}');
    }
}

proof fn lemma_ascii_boundary(s: Seq<char>, byte: int)
    requires
        is_ascii_chars(s),
        0 <= byte <= s.len(),
    ensures
        is_char_boundary(encode_utf8(s), byte),
    decreases s.len(),
{
    encode_utf8_valid_utf8(s);
    lemma_ascii(s);
    if byte > 0 {
        let rest = s.drop_first();
        assert forall|i: int| 0 <= i < rest.len() implies '\0' <= #[trigger] rest[i]
            <= '\u{7f}' by {
            assert(rest[i] == s[i + 1]);
        }
        assert('\0' <= s[0] <= '\u{7f}');
        lemma_ascii_boundary(rest, byte - 1);
        encode_utf8_first_scalar(s);
        assert(pop_first_scalar(encode_utf8(s)) =~= encode_utf8(rest));
    }
}

} // verus!
