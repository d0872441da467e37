//! The running state of the interface.

use crate::constant::{Const, ConstV};
use crate::constant_container::borrowed::{
    fits, inits, marked, rebased, BorrowedContainer,
};
use crate::constant_container::visit::{constants, lemma_resolved_view, ran, resolved, Visit};
use crate::constant_container::{law_filter_all, matching, ConstContainer, EntryV};
use crate::effects::after_taking_over;
use crate::errors::FilterError;
use crate::pattern::language;
use crate::text::{byte_len, chars_before};
use crate::tui::event::{meaning, Mode, ModeAction, RawUserEvent, UserEvent};
use crate::tui::position::{at_list, at_prompt, Position, MAX_ORIGIN};
use crate::tui::selection::{law_extend_spans, single, spans, Dir, Selection, SelectionV};
use crate::tui::spinner::Termination;
use std::ops::{ControlFlow, Range};
use vstd::prelude::*;
use vstd::utf8::{encode_utf8, encode_utf8_valid_utf8, is_char_boundary};

verus! {

/// The running state.
pub struct State {
    mode: Mode,
    constants: ConstContainer,
    filter_buf: BorrowedContainer,
    selected: Selection,
    prompt: String,
    pos: Position,
    origin: u16,
}

/// What a [`State`] is.
#[verifier::ext_equal]
pub struct StateV {
    pub mode: Mode,
    /// The constants.
    pub entries: Seq<EntryV>,
    /// The regexes that have been compiled so far.
    pub known: Set<Seq<char>>,
    /// The positions of the constants in view.
    pub handles: Seq<int>,
    /// For each of the constants in view, whether it was deprecated to begin with.
    pub init: Seq<bool>,
    /// For each of the constants, whether it was deprecated to begin with.
    pub entered: Seq<Option<bool>>,
    pub selected: SelectionV,
    pub prompt: Seq<char>,
    pub pos: Position,
    /// The row of the prompt.
    pub origin: u16,
}

/// What is left to be done after an update.
#[derive(Debug, Clone, Copy, PartialEq, Eq, Structural)]
pub enum Request {
    Nothing,
    /// The changes are to be effected to disk.
    Effect,
}

impl View for State {
    type V = StateV;

    closed spec fn view(&self) -> StateV {
        StateV {
            mode: self.mode,
            entries: self.constants@,
            known: self.constants.known(),
            handles: self.filter_buf.handles(),
            init: self.filter_buf.init(),
            entered: self.filter_buf.entered(),
            selected: self.selected@,
            prompt: self.prompt@,
            pos: self.pos,
            origin: self.origin,
        }
    }
}

/// The prompt after a character was typed at a byte position.
pub open spec fn typed(prompt: Seq<char>, col: u16, c: char) -> Seq<char> {
    if col == byte_len(prompt) {
        prompt.push(c)
    } else {
        prompt.insert(chars_before(prompt, col as int), c)
    }
}

/// The prompt after the character at a byte position was removed; at the end, it
/// is the last one that goes.
pub open spec fn popped(prompt: Seq<char>, col: u16) -> Seq<char> {
    if col == byte_len(prompt) {
        if prompt.len() == 0 {
            prompt
        } else {
            prompt.drop_last()
        }
    } else {
        prompt.remove(chars_before(prompt, col as int))
    }
}

/// Whether all of the constants are deprecated.
pub open spec fn all_marked(shown: Seq<ConstV>) -> bool {
    forall|i: int| 0 <= i < shown.len() ==> (#[trigger] shown[i]).deprecated
}

/// The constants after those in a view were toggled: deprecated, unless all of
/// them already are, in which case they are undeprecated.
pub open spec fn toggled(entries: Seq<EntryV>, handles: Seq<int>, init: Seq<bool>) -> Seq<EntryV> {
    marked(entries, handles, init, !all_marked(constants(handles, entries)))
}

/// The part of a view of `n` constants that is selected.
pub open spec fn clip(selected: SelectionV, n: nat) -> (int, int) {
    let end = if selected.end < n {
        selected.end as int
    } else {
        n as int
    };
    if selected.start < end {
        (selected.start as int, end)
    } else {
        (end, end)
    }
}

/// Whether the size of the terminal is known, and there is anything to be seen.
pub open spec fn visible(size: Option<(u16, u16)>) -> bool {
    match size {
        Some((cols, rows)) => cols > 0 && rows > 0,
        None => false,
    }
}

impl StateV {
    /// What every state keeps to.
    pub open spec fn wf(self) -> bool {
        &&& self.origin <= MAX_ORIGIN
        &&& fits(self.handles, self.entries.len())
        &&& self.init == inits(self.handles, self.entered)
        &&& self.entered.len() == self.entries.len()
        &&& forall|k: int| 0 <= k < self.entered.len() ==> (#[trigger] self.entered[k]) is Some
        &&& self.pos.wf(self.origin)
        // Text goes into the prompt, and a selection is made in the list.
        &&& self.mode == Mode::Insert ==> self.pos.repr is Prompt
        &&& self.mode == Mode::Select ==> self.pos.repr is List
        // The cursor is on one of the constants in view, if there are any.
        &&& self.pos.repr is List ==> self.pos.repr->List_0 < self.handles.len()
            || self.handles.len() == 0 && self.pos.repr->List_0 == 0
        &&& self.selected.wf()
        // There is no selection outside select mode.
        &&& self.mode != Mode::Select ==> self.selected == single(0)
        // In it, all rows between its start and the cursor are selected.
        &&& self.mode == Mode::Select ==> spans(self.selected, self.pos.repr->List_0)
        &&& if self.handles.len() == 0 {
            self.selected == single(0)
        } else {
            self.selected.end <= self.handles.len()
        }
    }

    /// The column of the cursor in the prompt.
    pub open spec fn col(self) -> u16 {
        self.pos.repr->Prompt_0
    }

    /// Whether the cursor is in the prompt, in front of a character or at the end.
    pub open spec fn at_char(self) -> bool {
        self.pos.repr is Prompt && is_char_boundary(encode_utf8(self.prompt), self.col() as int)
    }

    /// Whether the size of the terminal matters to the event.
    pub open spec fn wants_size(self, event: UserEvent) -> bool {
        match event {
            UserEvent::TextualInput(_) => true,
            UserEvent::ModeAction(ModeAction::GoRight) => {
                &&& self.mode == Mode::Normal
                &&& self.pos.repr is Prompt
                &&& self.col() != byte_len(self.prompt)
            },
            UserEvent::ModeAction(ModeAction::GoDown) => {
                ||| self.mode == Mode::Normal && self.pos.repr is List
                ||| self.mode == Mode::Select
            },
            _ => false,
        }
    }

    /// Whether the event can be handled: text only changes where a character
    /// starts.
    pub open spec fn accepts(self, event: UserEvent, size: Option<(u16, u16)>) -> bool {
        &&& self.wants_size(event) ==> visible(size)
        &&& match event {
            UserEvent::TextualInput(_) | UserEvent::Pop => self.at_char(),
            _ => true,
        }
    }

    /// The state after a character was typed.
    pub open spec fn after_text(self, c: char, size: (u16, u16)) -> StateV {
        StateV {
            prompt: typed(self.prompt, self.col(), c),
            pos: self.pos.advanced(self.handles.len() as usize, size),
            ..self
        }
    }

    /// The state after a character was removed.
    pub open spec fn after_pop(self) -> StateV {
        StateV { prompt: popped(self.prompt, self.col()), pos: self.pos.retracted(), ..self }
    }

    /// The state after the constants in view were toggled, or those of them that
    /// are selected.
    pub open spec fn after_toggle(self) -> StateV {
        let (start, end) = clip(self.selected, self.handles.len());
        StateV {
            entries: if self.mode == Mode::Normal {
                toggled(self.entries, self.handles, self.init)
            } else {
                toggled(
                    self.entries,
                    self.handles.subrange(start, end),
                    self.init.subrange(start, end),
                )
            },
            ..self
        }
    }

    /// The state after going to the other part of the screen, if there is
    /// anything in the list. This leaves the other modes.
    pub open spec fn after_switch(self) -> StateV {
        if self.handles.len() == 0 {
            self
        } else {
            StateV {
                mode: Mode::Normal,
                selected: if self.mode == Mode::Select {
                    single(0)
                } else {
                    self.selected
                },
                pos: self.pos.transitioned(self.origin),
                ..self
            }
        }
    }

    /// The state after going to another mode, where that is possible: from normal
    /// mode to insert mode, or in the list to select mode, and back again; from
    /// select mode to insert mode too.
    pub open spec fn after_mode(self, mode: Mode) -> StateV {
        match (self.mode, mode) {
            (Mode::Insert, Mode::Normal) => StateV { mode, ..self },
            (Mode::Normal, Mode::Insert) => StateV {
                mode,
                pos: if self.pos.repr is List {
                    self.pos.transitioned(self.origin)
                } else {
                    self.pos
                },
                ..self
            },
            (Mode::Normal, Mode::Select) => if self.pos.repr is List {
                StateV { mode, selected: single(self.pos.repr->List_0), ..self }
            } else {
                self
            },
            (Mode::Select, Mode::Insert) => StateV {
                mode,
                selected: single(0),
                pos: self.pos.transitioned(self.origin),
                ..self
            },
            (Mode::Select, Mode::Normal) => StateV { mode, selected: single(0), ..self },
            _ => self,
        }
    }

    /// The state after the cursor moved and the selection, in select mode, was
    /// extended to where it moved.
    pub open spec fn after_move(self, pos: Position, dir: Dir) -> StateV {
        StateV {
            pos,
            selected: if self.mode == Mode::Select {
                self.selected.extended(dir, pos.repr->List_0)
            } else {
                self.selected
            },
            ..self
        }
    }

    /// The state after an action. Left and right move in the prompt in normal
    /// mode, up and down move in the list.
    pub open spec fn after_action(self, action: ModeAction, size: (u16, u16)) -> StateV {
        let on = self.pos.advanced(self.handles.len() as usize, size);
        let back = self.pos.retracted();
        let in_prompt = self.mode == Mode::Normal && self.pos.repr is Prompt;
        let in_list = self.mode == Mode::Select || self.mode == Mode::Normal
            && self.pos.repr is List;
        match action {
            ModeAction::ModeSwitch(mode) => self.after_mode(mode),
            ModeAction::GoLeft => if in_prompt {
                StateV { pos: back, ..self }
            } else {
                self
            },
            ModeAction::GoRight => if in_prompt && self.col() != byte_len(self.prompt) {
                StateV { pos: on, ..self }
            } else {
                self
            },
            ModeAction::GoUp => if in_list {
                self.after_move(back, Dir::Up)
            } else {
                self
            },
            ModeAction::GoDown => if in_list {
                self.after_move(on, Dir::Down)
            } else {
                self
            },
        }
    }

    /// The state after the view was filtered.
    pub open spec fn after_filter(self, re: Seq<char>) -> StateV {
        let found = matching(self.entries, re, self.entries.len() as int);
        StateV {
            known: self.known.insert(re),
            handles: found,
            init: inits(found, self.entered),
            ..self
        }
    }

    /// The state after the contents of a written file were taken over, which
    /// leaves the constants as they are in it as those to begin with.
    pub open spec fn after_take_over(self, entries: Seq<EntryV>) -> StateV {
        let entered = rebased(self.entered, entries);
        StateV { entries, entered, init: inits(self.handles, entered), ..self }
    }

    /// The state after a search, if the regex compiles: nothing is selected, and
    /// in the list the cursor goes to its start.
    pub open spec fn after_search(self) -> StateV {
        StateV {
            selected: single(0),
            pos: if self.pos.repr is List {
                at_list(self.origin, 0)
            } else {
                self.pos
            },
            ..self.after_filter(self.prompt)
        }
    }

    /// The state after the prompt was cleared.
    pub open spec fn cleared(self) -> StateV {
        StateV {
            prompt: Seq::empty(),
            pos: if self.pos.repr is Prompt {
                at_prompt(self.origin, 0)
            } else {
                self.pos
            },
            ..self
        }
    }

    /// The state after the list was left for the prompt, where nothing is in view.
    /// As there, this leaves select mode.
    pub open spec fn settled(self) -> StateV {
        if self.handles.len() == 0 && self.pos.repr is List {
            StateV {
                mode: Mode::Normal,
                selected: single(0),
                pos: at_prompt(self.origin, 0),
                ..self
            }
        } else {
            self
        }
    }

    /// Whether the event filters the view.
    pub open spec fn filters(self, event: UserEvent) -> bool {
        event == UserEvent::Search || event == UserEvent::Clear && self.prompt.len() > 0
    }

    /// The regex that the event filters the view by.
    pub open spec fn filter_re(self, event: UserEvent) -> Seq<char> {
        if event == UserEvent::Search {
            self.prompt
        } else {
            ".*"@
        }
    }

    /// The state after the event, where a filter, if there is one, compiles.
    pub open spec fn after(self, event: UserEvent, size: (u16, u16)) -> StateV {
        match event {
            UserEvent::TextualInput(c) => self.after_text(c, size),
            UserEvent::Pop => self.after_pop(),
            UserEvent::Search => self.after_search(),
            UserEvent::Toggle => self.after_toggle(),
            UserEvent::Effect => self,
            UserEvent::Clear => if self.prompt.len() > 0 {
                self.cleared().after_filter(".*"@)
            } else {
                self
            },
            UserEvent::Switch => self.after_switch(),
            UserEvent::ModeAction(action) => self.after_action(action, size),
        }
    }
}

/// Whether all of the constants that are visited are deprecated.
pub fn all_deprecated<V: Visit>(visited: &V, owner: &ConstContainer) -> (r: bool)
    requires
        fits(visited.shown(), owner@.len()),
    ensures
        r == all_marked(constants(visited.shown(), owner@)),
{
    let check = |constant: &Const| -> (flow: ControlFlow<()>)
        ensures
            flow is Continue <==> constant@.deprecated,
        {
            if constant.is_deprecated() {
                ControlFlow::Continue(())
            } else {
                ControlFlow::Break(())
            }
        };
    let found: Option<()> = visited.visit(owner, check);
    proof {
        let seen = resolved(visited.shown(), *owner);
        let shown = constants(visited.shown(), owner@);
        lemma_resolved_view(visited.shown(), *owner);
        let out = choose|out: Seq<ControlFlow<()>>| #[trigger]
            ran(check, seen, out, found);
        assert(ran(check, seen, out, found));
        if found is None {
            assert forall|i: int| 0 <= i < shown.len() implies (#[trigger] shown[i]).deprecated by {
                assert(call_ensures(check, (&seen[i],), out[i]));
                if i < out.len() - 1 {
                    assert(out[i] is Continue);
                }
            }
        } else {
            let i = out.len() - 1;
            assert(call_ensures(check, (&seen[i],), out[i]));
            assert(!shown[i].deprecated);
        }
    }
    found.is_none()
}

/// Toggles the constants of the view that are selected.
fn toggle_in_select(
    filter_buf: &BorrowedContainer,
    selected: &Selection,
    owner: &mut ConstContainer,
)
    requires
        filter_buf.wf(old(owner)@.len()),
    ensures
        ({
            let (start, end) = clip(selected@, filter_buf.handles().len());
            final(owner)@ == toggled(
                old(owner)@,
                filter_buf.handles().subrange(start, end),
                filter_buf.init().subrange(start, end),
            )
        }),
        final(owner).known() == old(owner).known(),
{
    let len: usize = filter_buf.len();
    let range: &Range<u16> = selected.range();
    let end: usize = if (range.end as usize) < len {
        range.end as usize
    } else {
        len
    };
    let start: usize = if (range.start as usize) < end {
        range.start as usize
    } else {
        end
    };
    let subset = filter_buf.select(Range { start, end });
    assert(subset.wf(owner@.len()));
    if all_deprecated(&subset, owner) {
        subset.undeprecate(owner);
    } else {
        subset.deprecate(owner);
    }
}

impl State {
    /// The state to begin with: all constants are in view, and the cursor is in
    /// the empty prompt, which is in row `origin`.
    pub fn new(constants: ConstContainer, origin: u16) -> (r: Self)
        requires
            origin <= MAX_ORIGIN,
        ensures
            r@ == (StateV {
                mode: Mode::Normal,
                entries: constants@,
                known: constants.known(),
                handles: Seq::new(constants@.len(), |i: int| i),
                init: constants@.map_values(|e: EntryV| e.constant.deprecated),
                entered: constants@.map_values(|e: EntryV| Some(e.constant.deprecated)),
                selected: single(0),
                prompt: Seq::empty(),
                pos: at_prompt(origin, 0),
                origin,
            }),
            r@.wf(),
    {
        let filter_buf: BorrowedContainer = constants.view_all();
        assert(filter_buf.init() =~= constants@.map_values(|e: EntryV| e.constant.deprecated));
        let prompt: String = String::new();
        assert(prompt@ =~= Seq::empty());
        State {
            mode: Mode::default(),
            constants,
            filter_buf,
            selected: Selection::default(),
            prompt,
            pos: Position::new_prompt(origin, 0),
            origin,
        }
    }

    /// What the key press means in the present mode; there is nothing left to do
    /// once no more of them come.
    pub fn receive_event(&self, event: Option<RawUserEvent>) -> (r: Termination<Option<UserEvent>>)
        ensures
            r == (match event {
                Some(event) => Termination::KeepGoing(meaning(self@.mode, event)),
                None => Termination::Terminate,
            }),
    {
        match event {
            Some(event) => Termination::KeepGoing(self.mode.interpret(event)),
            None => Termination::Terminate,
        }
    }

    pub fn constants(&self) -> (r: &ConstContainer)
        ensures
            r@ == self@.entries,
            r.known() == self@.known,
    {
        &self.constants
    }

    pub fn mode(&self) -> (r: Mode)
        ensures
            r == self@.mode,
    {
        self.mode
    }

    pub fn pos(&self) -> (r: Position)
        ensures
            r == self@.pos,
    {
        self.pos
    }

    pub fn prompt(&self) -> (r: &str)
        ensures
            r@ == self@.prompt,
    {
        self.prompt.as_str()
    }

    pub fn selected(&self) -> (r: &Selection)
        ensures
            r@ == self@.selected,
    {
        &self.selected
    }

    pub fn filter_buf(&self) -> (r: &BorrowedContainer)
        ensures
            r.handles() == self@.handles,
            r.init() == self@.init,
            r.entered() == self@.entered,
    {
        &self.filter_buf
    }

    /// Whether the size of the terminal matters to the event.
    pub fn wants_size(&self, event: UserEvent) -> (r: bool)
        ensures
            r == self@.wants_size(event),
    {
        match event {
            UserEvent::TextualInput(_) => true,
            UserEvent::ModeAction(ModeAction::GoRight) => {
                self.mode.is_normal() && self.pos.is_prompt() && self.pos.into_prompt() as usize
                    != self.prompt.as_str().len()
            },
            UserEvent::ModeAction(ModeAction::GoDown) => {
                self.mode.is_normal() && self.pos.is_list() || self.mode.is_select()
            },
            _ => false,
        }
    }

    /// Whether the event can be handled.
    pub fn accepts(&self, event: UserEvent, size: Option<(u16, u16)>) -> (r: bool)
        ensures
            r == self@.accepts(event, size),
    {
        let sized: bool = match size {
            Some((cols, rows)) => cols > 0 && rows > 0,
            None => false,
        };
        if self.wants_size(event) && !sized {
            return false;
        }
        match event {
            UserEvent::TextualInput(_) | UserEvent::Pop => {
                self.pos.is_prompt() && self.prompt.as_str().is_char_boundary(
                    self.pos.into_prompt() as usize,
                )
            },
            _ => true,
        }
    }

    fn type_text(&mut self, c: char, size: (u16, u16))
        requires
            old(self)@.wf(),
            old(self)@.accepts(UserEvent::TextualInput(c), Some(size)),
        ensures
            final(self)@ == old(self)@.after_text(c, size),
            final(self)@.wf(),
    {
        let current_col: usize = self.pos.into_prompt() as usize;
        if current_col == self.prompt.as_str().len() {
            self.prompt.push(c);
        } else {
            self.prompt.insert(current_col, c);
        }
        self.pos.advance(self.filter_buf.len(), size);
    }

    fn pop(&mut self)
        requires
            old(self)@.wf(),
            old(self)@.at_char(),
        ensures
            final(self)@ == old(self)@.after_pop(),
            final(self)@.wf(),
    {
        let current_col: usize = self.pos.into_prompt() as usize;
        proof {
            encode_utf8_valid_utf8(self.prompt@);
        }
        if current_col == self.prompt.as_str().len() {
            self.prompt.pop();
        } else {
            self.prompt.remove(current_col);
        }
        self.pos.retract();
    }

    fn toggle(&mut self)
        requires
            old(self)@.wf(),
        ensures
            final(self)@ == old(self)@.after_toggle(),
            final(self)@.wf(),
    {
        assert(self.filter_buf.wf(self.constants@.len()));
        if self.mode.is_normal() {
            if all_deprecated(&self.filter_buf, &self.constants) {
                self.filter_buf.undeprecate(&mut self.constants);
            } else {
                self.filter_buf.deprecate(&mut self.constants);
            }
        } else {
            toggle_in_select(&self.filter_buf, &self.selected, &mut self.constants);
        }
    }

    fn search(&mut self) -> (r: Result<(), FilterError>)
        requires
            old(self)@.wf(),
        ensures
            old(self)@.known.contains(old(self)@.prompt) || old(self)@.prompt == ".*"@ ==> r is Ok,
            match r {
                Ok(()) => {
                    &&& language(old(self)@.prompt) is Some
                    &&& final(self)@ == old(self)@.after_search()
                },
                Err(err) => {
                    &&& final(self)@ == old(self)@
                    &&& err.repr().source() == old(self)@.prompt
                    &&& err.repr() is RegexSyntax <==> language(old(self)@.prompt) is None
                },
            },
            final(self)@.wf(),
    {
        self.constants.filter_with(self.prompt.as_str(), &mut self.filter_buf)?;
        assert(self.filter_buf.entered() =~= old(self).filter_buf.entered());
        self.selected = Selection::default();
        if self.pos.is_list() {
            self.pos = Position::new_list(self.origin, 0);
        }
        Ok(())
    }

    fn clear(&mut self) -> (r: Result<(), FilterError>)
        requires
            old(self)@.wf(),
        ensures
            r is Ok,
            language(".*"@) is Some,
            final(self)@ == old(self)@.cleared().after_filter(".*"@),
            final(self)@.handles == Seq::new(old(self)@.entries.len(), |i: int| i),
            final(self)@.wf(),
    {
        self.prompt.clear();
        if self.pos.is_prompt() {
            self.pos = Position::new_prompt(self.origin, 0);
        }
        self.constants.filter_with(".*", &mut self.filter_buf)?;
        assert(self.filter_buf.entered() =~= old(self).filter_buf.entered());
        proof {
            law_filter_all(self.constants@, ".*"@);
            lemma_fits_len(old(self)@.handles, self.constants@.len());
        }
        Ok(())
    }

    fn switch(&mut self)
        requires
            old(self)@.wf(),
        ensures
            final(self)@ == old(self)@.after_switch(),
            final(self)@.wf(),
    {
        if !self.filter_buf.is_empty() {
            match self.mode {
                Mode::Insert => {
                    self.mode = Mode::Normal;
                },
                Mode::Normal => (),
                Mode::Select => {
                    self.mode = Mode::Normal;
                    self.selected = Selection::default();
                },
            }
            self.pos.transition(self.origin);
        }
    }

    fn switch_mode(&mut self, mode: Mode)
        requires
            old(self)@.wf(),
        ensures
            final(self)@ == old(self)@.after_mode(mode),
            final(self)@.wf(),
    {
        match (self.mode, mode) {
            (Mode::Insert, Mode::Normal) => {
                self.mode = mode;
            },
            (Mode::Normal, Mode::Insert) => {
                self.mode = mode;
                if self.pos.is_list() {
                    self.pos.transition(self.origin);
                }
            },
            (Mode::Normal, Mode::Select) => {
                if self.pos.is_list() {
                    self.mode = mode;
                    self.selected = Selection::with_pivot(self.pos.into_list());
                }
            },
            (Mode::Select, Mode::Insert) => {
                self.mode = mode;
                self.selected = Selection::default();
                self.pos.transition(self.origin);
            },
            (Mode::Select, Mode::Normal) => {
                self.mode = mode;
                self.selected = Selection::default();
            },
            _ => (),
        }
    }

    /// Takes over the contents of a file that was written. Reports whether it holds
    /// the same constants as before; if not, nothing is changed.
    pub fn take_over(&mut self, path: &str, contents: &str) -> (r: bool)
        requires
            old(self)@.wf(),
        ensures
            final(self)@.wf(),
            match after_taking_over(old(self)@.entries, path@, contents@) {
                Some(entries) => r && final(self)@ == old(self)@.after_take_over(entries),
                None => !r && final(self)@ == old(self)@,
            },
    {
        if self.constants.take_over(path, contents) {
            self.filter_buf.rebase(&self.constants);
            true
        } else {
            false
        }
    }

    /// Leaves the list, where nothing is in view, for the prompt.
    pub(crate) fn leave_empty_list(&mut self)
        requires
            old(self)@.wf(),
        ensures
            final(self)@ == old(self)@.settled(),
            final(self)@.wf(),
    {
        if self.filter_buf.is_empty() && self.pos.is_list() {
            self.mode = Mode::Normal;
            self.selected = Selection::default();
            self.pos.transition(self.origin);
        }
    }

    fn go(&mut self, action: ModeAction, size: (u16, u16))
        requires
            old(self)@.wf(),
            old(self)@.wants_size(UserEvent::ModeAction(action)) ==> visible(Some(size)),
        ensures
            final(self)@ == old(self)@.after_action(action, size),
            final(self)@.wf(),
    {
        let count: usize = self.filter_buf.len();
        proof {
            if self.mode == Mode::Select {
                law_extend_spans(self.selected@, self.pos.repr->List_0);
            }
        }
        match action {
            ModeAction::ModeSwitch(mode) => self.switch_mode(mode),
            ModeAction::GoLeft => {
                if self.mode.is_normal() && self.pos.is_prompt() {
                    self.pos.retract();
                }
            },
            ModeAction::GoRight => {
                if self.mode.is_normal() && self.pos.is_prompt() && self.pos.into_prompt() as usize
                    != self.prompt.as_str().len() {
                    self.pos.advance(count, size);
                }
            },
            ModeAction::GoUp => {
                if self.mode.is_normal() && self.pos.is_list() {
                    self.pos.retract();
                } else if self.mode.is_select() {
                    self.pos.retract();
                    self.selected.extend(Dir::Up, &self.pos);
                }
            },
            ModeAction::GoDown => {
                if self.mode.is_normal() && self.pos.is_list() {
                    self.pos.advance(count, size);
                } else if self.mode.is_select() {
                    self.pos.advance(count, size);
                    self.selected.extend(Dir::Down, &self.pos);
                }
            },
        }
    }

    /// Handles what the user asks for, and returns what is left to be done.
    ///
    /// # Errors
    ///
    /// Fails if the regex in the prompt, by which the constants are to be filtered,
    /// failed to compile. Nothing is changed then.
    pub fn update(&mut self, event: Option<UserEvent>, size: Option<(u16, u16)>) -> (r: Result<
        Request,
        FilterError,
    >)
        requires
            old(self)@.wf(),
            event is Some ==> old(self)@.accepts(event->0, size),
        ensures
            final(self)@.wf(),
            match event {
                None => {
                    &&& r == Ok::<Request, FilterError>(Request::Nothing)
                    &&& final(self)@ == old(self)@
                },
                Some(event) => {
                    let re = old(self)@.filter_re(event);
                    match r {
                        Ok(request) => {
                            &&& request == (if event == UserEvent::Effect {
                                Request::Effect
                            } else {
                                Request::Nothing
                            })
                            &&& final(self)@ == old(self)@.after(event, known_size(size))
                            &&& old(self)@.filters(event) ==> language(re) is Some
                            &&& event == UserEvent::Clear && old(self)@.filters(event)
                                ==> final(self)@.handles == Seq::new(
                                old(self)@.entries.len(),
                                |i: int| i,
                            )
                        },
                        Err(err) => {
                            &&& event == UserEvent::Search
                            &&& !old(self)@.known.contains(re)
                            &&& re != ".*"@
                            &&& final(self)@ == old(self)@
                            &&& err.repr().source() == re
                            &&& err.repr() is RegexSyntax <==> language(re) is None
                        },
                    }
                },
            },
    {
        let size: (u16, u16) = match size {
            Some(size) => size,
            None => (0, 0),
        };
        let event: UserEvent = match event {
            Some(event) => event,
            None => return Ok(Request::Nothing),
        };
        match event {
            UserEvent::TextualInput(c) => self.type_text(c, size),
            UserEvent::Pop => self.pop(),
            UserEvent::Search => self.search()?,
            UserEvent::Toggle => self.toggle(),
            UserEvent::Effect => return Ok(Request::Effect),
            UserEvent::Clear => {
                if !self.prompt.as_str().is_empty() {
                    self.clear()?;
                }
            },
            UserEvent::Switch => self.switch(),
            UserEvent::ModeAction(action) => self.go(action, size),
        }
        Ok(Request::Nothing)
    }
}

/// The size of the terminal, where it matters.
pub open spec fn known_size(size: Option<(u16, u16)>) -> (u16, u16) {
    match size {
        Some(size) => size,
        None => (0, 0),
    }
}

/// No more constants are in view than there are.
proof fn lemma_fits_len(handles: Seq<int>, n: nat)
    requires
        fits(handles, n),
    ensures
        handles.len() <= n,
    decreases n,
{
    if handles.len() > 0 {
        let shorter = handles.drop_last();
        let last = handles.last();
        assert(last == handles[handles.len() - 1]);
        assert forall|i: int| 0 <= i < shorter.len() implies 0 <= #[trigger] shorter[i] < n - 1 by {
            assert(handles[i] < handles[handles.len() - 1]);
        }
        assert forall|i: int, j: int| 0 <= i < j < shorter.len() implies #[trigger] shorter[i]
            < #[trigger] shorter[j] by {
            assert(handles[i] < handles[j]);
        }
        lemma_fits_len(shorter, (n - 1) as nat);
    }
}

} // verus!
