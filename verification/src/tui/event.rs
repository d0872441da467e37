//! From key presses to what the user asks for.

use vstd::prelude::*;

verus! {

/// The mode that the interface is in.
#[derive(Debug, Clone, Copy, Hash, PartialEq, Eq, PartialOrd, Ord, Structural)]
pub enum Mode {
    /// Keys go into the prompt.
    Insert,
    /// Keys move around and issue commands.
    Normal,
    /// Keys extend a selection in the list.
    Select,
}

impl Default for Mode {
    fn default() -> (r: Self)
        ensures
            r == Mode::Normal,
    {
        Mode::Normal
    }
}

/// Everything but the major actions, which stand in [`UserEvent`], and plain
/// text input.
#[derive(Debug, Clone, Copy, PartialEq, Eq, Structural)]
pub enum ModeAction {
    /// Goes to another mode.
    ModeSwitch(Mode),
    /// The navigation binding assigned to `h`.
    GoLeft,
    /// The navigation binding assigned to `l`.
    GoRight,
    /// The navigation binding assigned to `k`.
    GoUp,
    /// The navigation binding assigned to `j`.
    GoDown,
}

/// A key press that the interface knows, whatever the mode is.
#[derive(Debug, Clone, Copy, PartialEq, Eq, Structural)]
pub enum RawUserEvent {
    PlainText(char),
    Return,
    /// This could be plain text, but means something else outside insert mode.
    Space,
    ShiftReturn,
    Escape,
    Tab,
    Backspace,
}

/// What the user asks for.
#[derive(Debug, Clone, Copy, PartialEq, Eq, Structural)]
pub enum UserEvent {
    /// Plain text user input at the prompt.
    TextualInput(char),
    /// Removes the character under the cursor.
    Pop,
    /// Starts filtering with the current contents of the prompt.
    Search,
    /// Toggles all selected constants' state to deprecated, unless all of them
    /// are already deprecated, in which case it undeprecates them.
    Toggle,
    /// Effects the changes to disk.
    Effect,
    /// Clears the currently input regex.
    Clear,
    /// Switches between the prompt and the list.
    Switch,
    ModeAction(ModeAction),
}

/// The way that a navigation key leads.
pub open spec fn navigation(c: char) -> Option<ModeAction> {
    if c == 'h' {
        Some(ModeAction::GoLeft)
    } else if c == 'l' {
        Some(ModeAction::GoRight)
    } else if c == 'k' {
        Some(ModeAction::GoUp)
    } else if c == 'j' {
        Some(ModeAction::GoDown)
    } else {
        None
    }
}

/// The mode that a key leads to from normal mode.
pub open spec fn mode_transition(c: char) -> Option<ModeAction> {
    if c == 'i' {
        Some(ModeAction::ModeSwitch(Mode::Insert))
    } else if c == 'v' {
        Some(ModeAction::ModeSwitch(Mode::Select))
    } else {
        None
    }
}

/// What a key that stands for a character means in each of the modes.
pub open spec fn text_meaning(mode: Mode, c: char) -> Option<UserEvent> {
    match mode {
        Mode::Insert => Some(UserEvent::TextualInput(c)),
        Mode::Normal => match (navigation(c), mode_transition(c)) {
            (Some(action), _) => Some(UserEvent::ModeAction(action)),
            (None, Some(action)) => Some(UserEvent::ModeAction(action)),
            (None, None) => None,
        },
        Mode::Select => match navigation(c) {
            Some(action) => Some(UserEvent::ModeAction(action)),
            None => None,
        },
    }
}

/// What a key press means in each of the modes.
pub open spec fn meaning(mode: Mode, event: RawUserEvent) -> Option<UserEvent> {
    match event {
        RawUserEvent::PlainText(c) => text_meaning(mode, c),
        RawUserEvent::Return => if mode == Mode::Select {
            None
        } else {
            Some(UserEvent::Search)
        },
        RawUserEvent::Space => if mode == Mode::Insert {
            Some(UserEvent::TextualInput(' '))
        } else {
            Some(UserEvent::Toggle)
        },
        RawUserEvent::ShiftReturn => if mode == Mode::Normal {
            Some(UserEvent::Effect)
        } else {
            None
        },
        RawUserEvent::Escape => if mode == Mode::Normal {
            Some(UserEvent::Clear)
        } else {
            Some(UserEvent::ModeAction(ModeAction::ModeSwitch(Mode::Normal)))
        },
        RawUserEvent::Tab => Some(UserEvent::Switch),
        RawUserEvent::Backspace => if mode == Mode::Insert {
            Some(UserEvent::Pop)
        } else {
            None
        },
    }
}

impl ModeAction {
    pub fn is_mode_transition(c: char) -> (r: Option<Self>)
        ensures
            r == mode_transition(c),
    {
        match c {
            'i' => Some(ModeAction::ModeSwitch(Mode::Insert)),
            'v' => Some(ModeAction::ModeSwitch(Mode::Select)),
            _ => None,
        }
    }

    pub fn is_navigation(c: char) -> (r: Option<Self>)
        ensures
            r == navigation(c),
    {
        match c {
            'h' => Some(ModeAction::GoLeft),
            'l' => Some(ModeAction::GoRight),
            'k' => Some(ModeAction::GoUp),
            'j' => Some(ModeAction::GoDown),
            _ => None,
        }
    }
}

impl Mode {
    /// What the key press means in this mode, if anything.
    pub fn interpret(self, event: RawUserEvent) -> (r: Option<UserEvent>)
        ensures
            r == meaning(self, event),
    {
        match (self, event) {
            (Mode::Insert, RawUserEvent::PlainText(c)) => Some(UserEvent::TextualInput(c)),
            (Mode::Insert, RawUserEvent::Space) => Some(UserEvent::TextualInput(' ')),
            (Mode::Insert, RawUserEvent::Backspace) => Some(UserEvent::Pop),
            (Mode::Normal, RawUserEvent::PlainText(c)) => {
                match ModeAction::is_navigation(c) {
                    Some(action) => Some(UserEvent::ModeAction(action)),
                    None => match ModeAction::is_mode_transition(c) {
                        Some(action) => Some(UserEvent::ModeAction(action)),
                        None => None,
                    },
                }
            },
            (Mode::Normal, RawUserEvent::ShiftReturn) => Some(UserEvent::Effect),
            (Mode::Normal, RawUserEvent::Escape) => Some(UserEvent::Clear),
            (Mode::Select, RawUserEvent::PlainText(c)) => match ModeAction::is_navigation(c) {
                Some(action) => Some(UserEvent::ModeAction(action)),
                None => None,
            },
            (Mode::Insert | Mode::Normal, RawUserEvent::Return) => Some(UserEvent::Search),
            (Mode::Normal | Mode::Select, RawUserEvent::Space) => Some(UserEvent::Toggle),
            (Mode::Insert | Mode::Select, RawUserEvent::Escape) => {
                Some(UserEvent::ModeAction(ModeAction::ModeSwitch(Mode::Normal)))
            },
            (_, RawUserEvent::Tab) => Some(UserEvent::Switch),
            _ => None,
        }
    }

    pub fn is_insert(&self) -> (r: bool)
        ensures
            r == (*self == Mode::Insert),
    {
        matches!(*self, Mode::Insert)
    }

    pub fn is_normal(&self) -> (r: bool)
        ensures
            r == (*self == Mode::Normal),
    {
        matches!(*self, Mode::Normal)
    }

    pub fn is_select(&self) -> (r: bool)
        ensures
            r == (*self == Mode::Select),
    {
        matches!(*self, Mode::Select)
    }
}

/// The key of an event of the terminal.
#[derive(Debug, Clone, Copy, PartialEq, Eq, Structural)]
pub enum KeyCode {
    Char(char),
    Enter,
    Esc,
    Tab,
    Backspace,
    /// Any other key.
    Other,
}

/// The modifiers that are held down while a key is.
#[derive(Debug, Clone, Copy, PartialEq, Eq, Structural)]
pub enum KeyModifiers {
    Bare,
    /// Shift and nothing else.
    Shift,
    /// Control and nothing else.
    Control,
    /// Anything else.
    Other,
}

/// An event of the terminal.
#[derive(Debug, Clone, Copy, PartialEq, Eq, Structural)]
pub enum TerminalEvent {
    Key {
        code: KeyCode,
        modifiers: KeyModifiers,
        /// Whether the key went down, and is neither repeated nor released.
        press: bool,
    },
    /// Any other event.
    Other,
}

/// What is to be done about an event of the terminal.
#[derive(Debug, Clone, Copy, PartialEq, Eq, Structural)]
pub enum Input {
    /// It is handed on.
    Send(RawUserEvent),
    /// It ends the program.
    Stop,
    /// It is dropped.
    Ignore,
}

/// What a key that went down stands for.
pub open spec fn pressed(code: KeyCode, modifiers: KeyModifiers) -> Input {
    match modifiers {
        KeyModifiers::Bare => match code {
            KeyCode::Char(c) => Input::Send(
                if c == ' ' {
                    RawUserEvent::Space
                } else {
                    RawUserEvent::PlainText(c)
                },
            ),
            KeyCode::Enter => Input::Send(RawUserEvent::Return),
            KeyCode::Esc => Input::Send(RawUserEvent::Escape),
            KeyCode::Tab => Input::Send(RawUserEvent::Tab),
            KeyCode::Backspace => Input::Send(RawUserEvent::Backspace),
            KeyCode::Other => Input::Ignore,
        },
        KeyModifiers::Shift => if code == KeyCode::Enter {
            Input::Send(RawUserEvent::ShiftReturn)
        } else {
            Input::Ignore
        },
        // Raw mode hands these two on in place of an interrupt and an end of file.
        KeyModifiers::Control => if code == KeyCode::Char('c') || code == KeyCode::Char('d') {
            Input::Stop
        } else {
            Input::Ignore
        },
        KeyModifiers::Other => Input::Ignore,
    }
}

/// What is to be done about an event of the terminal.
pub fn handle_input(event: TerminalEvent) -> (r: Input)
    ensures
        r == (match event {
            TerminalEvent::Key { code, modifiers, press: true } => pressed(code, modifiers),
            _ => Input::Ignore,
        }),
{
    match event {
        TerminalEvent::Key { code, modifiers, press } => {
            if !press {
                return Input::Ignore;
            }
            match (code, modifiers) {
                (KeyCode::Char(' '), KeyModifiers::Bare) => Input::Send(RawUserEvent::Space),
                (KeyCode::Char(c), KeyModifiers::Bare) => Input::Send(RawUserEvent::PlainText(c)),
                (KeyCode::Enter, KeyModifiers::Shift) => Input::Send(RawUserEvent::ShiftReturn),
                (KeyCode::Enter, KeyModifiers::Bare) => Input::Send(RawUserEvent::Return),
                (KeyCode::Esc, KeyModifiers::Bare) => Input::Send(RawUserEvent::Escape),
                (KeyCode::Tab, KeyModifiers::Bare) => Input::Send(RawUserEvent::Tab),
                (KeyCode::Backspace, KeyModifiers::Bare) => Input::Send(RawUserEvent::Backspace),
                (KeyCode::Char('c' | 'd'), KeyModifiers::Control) => Input::Stop,
                _ => Input::Ignore,
            }
        },
        TerminalEvent::Other => Input::Ignore,
    }
}

} // verus!
