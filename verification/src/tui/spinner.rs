//! The progress report that is shown while something takes its time.

use crate::text::joined;
use vstd::prelude::*;

verus! {

/// A bar that turns.
#[derive(Debug, Clone, Copy, PartialEq, Eq, Structural)]
pub enum Spinner {
    Vert,
    Left,
    Hor,
    Right,
}

impl Default for Spinner {
    fn default() -> (r: Self)
        ensures
            r == Spinner::Vert,
    {
        Spinner::Vert
    }
}

impl Spinner {
    pub open spec fn next(self) -> Spinner {
        match self {
            Spinner::Vert => Spinner::Left,
            Spinner::Left => Spinner::Hor,
            Spinner::Hor => Spinner::Right,
            Spinner::Right => Spinner::Vert,
        }
    }

    pub open spec fn text(self) -> Seq<char> {
        match self {
            Spinner::Vert => "|"@,
            Spinner::Left => "/"@,
            Spinner::Hor => "-"@,
            Spinner::Right => "\\"@,
        }
    }

    /// Turns the bar on, and returns what it turned to.
    pub fn transition(&mut self) -> (r: Self)
        ensures
            r == old(self).next(),
            *final(self) == old(self).next(),
    {
        *self = match *self {
            Spinner::Vert => Spinner::Left,
            Spinner::Left => Spinner::Hor,
            Spinner::Hor => Spinner::Right,
            Spinner::Right => Spinner::Vert,
        };
        *self
    }

    /// How the bar is shown.
    pub fn stringified(self) -> (r: &'static str)
        ensures
            r@ == self.text(),
    {
        match self {
            Spinner::Vert => "|",
            Spinner::Left => "/",
            Spinner::Hor => "-",
            Spinner::Right => "\\",
        }
    }
}

/// The bar is back where it was after four turns, and not before.
pub proof fn law_spinner_cycle(s: Spinner)
    ensures
        s.next().next().next().next() == s,
        s.next() != s,
        s.next().next() != s,
        s.next().next().next() != s,
{
}

/// What the channel of messages gave when it was last asked.
#[derive(Debug)]
pub enum Received {
    Message(String),
    Empty,
    /// There is no sender left.
    Disconnected,
}

/// The running report: the bar, and the message that was last received.
#[derive(Debug)]
pub struct Report {
    spinner: Spinner,
    message: String,
}

/// What a [`Report`] is.
#[verifier::ext_equal]
pub struct ReportV {
    pub spinner: Spinner,
    pub message: Seq<char>,
}

impl View for Report {
    type V = ReportV;

    closed spec fn view(&self) -> ReportV {
        ReportV { spinner: self.spinner, message: self.message@ }
    }
}

impl Default for Report {
    fn default() -> (r: Self)
        ensures
            r@ == (ReportV { spinner: Spinner::Vert, message: Seq::empty() }),
    {
        let message: String = "".to_owned();
        proof {
            reveal_strlit("");
        }
        assert(message@ =~= Seq::empty());
        Report { spinner: Spinner::default(), message }
    }
}

impl ReportV {
    /// The line that shows the report.
    pub open spec fn line(self) -> Seq<char> {
        self.spinner.text() + " "@ + self.message
    }
}

/// The message that is shown after the channel was asked.
pub open spec fn latest(message: Seq<char>, received: Received) -> Seq<char> {
    match received {
        Received::Message(text) => text@,
        _ => message,
    }
}

impl Report {
    /// Goes on by one frame: returns the line to be printed, or nothing once
    /// there is no sender left.
    pub fn tick(&mut self, received: Received) -> (r: Option<String>)
        ensures
            received is Disconnected ==> r is None && final(self)@ == old(self)@,
            !(received is Disconnected) ==> {
                let message = latest(old(self)@.message, received);
                &&& r is Some
                &&& r->0@ == (ReportV { message, ..old(self)@ }).line()
                &&& final(self)@ == (ReportV { spinner: old(self)@.spinner.next(), message })
            },
    {
        match received {
            Received::Message(text) => {
                self.message = text;
            },
            Received::Empty => (),
            Received::Disconnected => return None,
        }
        let line: String = joined(
            joined(self.spinner.stringified(), " ").as_str(),
            self.message.as_str(),
        );
        self.spinner.transition();
        Some(line)
    }
}

/// What the task that writes to disk reports.
#[derive(Debug, Clone, Copy, PartialEq, Eq, Structural)]
pub enum Msg {
    EffectingChanges,
    FinishedChanges,
}

impl Msg {
    pub open spec fn text(self) -> Seq<char> {
        match self {
            Msg::EffectingChanges => "Effecting changes to disk"@,
            Msg::FinishedChanges => "Finished effecting changes to disk"@,
        }
    }

    pub fn stringified(self) -> (r: &'static str)
        ensures
            r@ == self.text(),
    {
        match self {
            Msg::EffectingChanges => "Effecting changes to disk",
            Msg::FinishedChanges => "Finished effecting changes to disk",
        }
    }

    pub fn is_finished(&self) -> (r: bool)
        ensures
            r == (*self == Msg::FinishedChanges),
    {
        matches!(*self, Msg::FinishedChanges)
    }
}

/// Whether there is anything left to do, and with what.
#[derive(Debug)]
pub enum Termination<T> {
    Terminate,
    KeepGoing(T),
}

impl<T> Termination<T> {
    pub fn should_terminate(&self) -> (r: bool)
        ensures
            r == (*self is Terminate),
    {
        matches!(self, Termination::Terminate)
    }
}

} // verus!
