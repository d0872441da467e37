//! Where the cursor is.

use vstd::prelude::*;

verus! {

/// How many symbols the list shows at most.
pub const LIST_ROWS: u16 = 10;

/// The last row that the prompt can be in with the whole list below it.
pub const MAX_ORIGIN: u16 = 0xfff5;

/// The part of the screen that the cursor is in, and how far into it.
#[derive(Debug, Clone, Copy, PartialEq, Eq, Structural)]
pub enum PositionRepr {
    /// In the prompt, at a column that is counted from its text.
    Prompt(u16),
    /// In the list, at a row that is counted from its first.
    List(u16),
}

/// The position of the cursor, relative to the prompt or the list, and in the
/// terminal grid.
#[derive(Debug, Clone, Copy, PartialEq, Eq, Structural)]
pub struct Position {
    pub repr: PositionRepr,
    pub row: u16,
    pub col: u16,
}

/// The position at a column of the prompt in row `origin`. The text comes after
/// a mark that is two columns wide.
pub open spec fn at_prompt(origin: u16, col: u16) -> Position {
    Position { repr: PositionRepr::Prompt(col), row: origin, col: (col + 2) as u16 }
}

/// The position at a row of the list, which starts below the prompt. The symbols
/// come after a checkbox that is four columns wide.
pub open spec fn at_list(origin: u16, row: u16) -> Position {
    Position { repr: PositionRepr::List(row), row: (origin + 1 + row) as u16, col: 4 }
}

impl Position {
    /// Whether the position in the grid agrees with the relative one.
    pub open spec fn wf(self, origin: u16) -> bool {
        match self.repr {
            PositionRepr::Prompt(c) => {
                &&& self.row == origin
                &&& c <= u16::MAX - 2
                &&& self.col == c + 2
            },
            PositionRepr::List(r) => {
                &&& r < LIST_ROWS
                &&& self.row == origin + 1 + r
                &&& self.col == 4
            },
        }
    }

    /// One step back: to the left in the prompt, up in the list.
    pub open spec fn retracted(self) -> Position {
        match self.repr {
            PositionRepr::Prompt(c) => if c > 0 {
                Position {
                    repr: PositionRepr::Prompt((c - 1) as u16),
                    col: if self.col > 0 {
                        (self.col - 1) as u16
                    } else {
                        0
                    },
                    ..self
                }
            } else {
                self
            },
            PositionRepr::List(r) => if r > 0 {
                Position {
                    repr: PositionRepr::List((r - 1) as u16),
                    row: (self.row - 1) as u16,
                    ..self
                }
            } else {
                self
            },
        }
    }

    /// One step on, in a terminal of the given columns and rows: to the right in
    /// the prompt, down in a list of `element_count` symbols.
    pub open spec fn advanced(self, element_count: usize, size: (u16, u16)) -> Position {
        match self.repr {
            PositionRepr::Prompt(c) => if c + 1 < size.0 - 1 {
                Position {
                    repr: PositionRepr::Prompt((c + 1) as u16),
                    col: (self.col + 1) as u16,
                    ..self
                }
            } else {
                self
            },
            PositionRepr::List(r) => if r + 1 < element_count && r + 1 < LIST_ROWS && r + 1 < size.1
                - 1 {
                Position {
                    repr: PositionRepr::List((r + 1) as u16),
                    row: (self.row + 1) as u16,
                    ..self
                }
            } else {
                self
            },
        }
    }

    /// The start of the other part of the screen.
    pub open spec fn transitioned(self, origin: u16) -> Position {
        match self.repr {
            PositionRepr::Prompt(_) => at_list(origin, 0),
            PositionRepr::List(_) => at_prompt(origin, 0),
        }
    }

    pub fn new_prompt(origin: u16, col: u16) -> (r: Self)
        requires
            col <= u16::MAX - 2,
        ensures
            r == at_prompt(origin, col),
            r.wf(origin),
    {
        Position { repr: PositionRepr::Prompt(col), row: origin, col: col + 2 }
    }

    pub fn new_list(origin: u16, row: u16) -> (r: Self)
        requires
            origin + 1 + row <= u16::MAX,
        ensures
            r == at_list(origin, row),
            row < LIST_ROWS ==> r.wf(origin),
    {
        Position { repr: PositionRepr::List(row), row: origin + 1 + row, col: 4 }
    }

    pub fn is_prompt(&self) -> (r: bool)
        ensures
            r == (self.repr is Prompt),
    {
        matches!(self.repr, PositionRepr::Prompt(_))
    }

    pub fn is_list(&self) -> (r: bool)
        ensures
            r == (self.repr is List),
    {
        matches!(self.repr, PositionRepr::List(_))
    }

    /// The column in the prompt.
    pub fn into_prompt(self) -> (r: u16)
        requires
            self.repr is Prompt,
        ensures
            self.repr == PositionRepr::Prompt(r),
    {
        match self.repr {
            PositionRepr::Prompt(col) => col,
            PositionRepr::List(row) => row,
        }
    }

    /// The row in the list.
    pub fn into_list(self) -> (r: u16)
        requires
            self.repr is List,
        ensures
            self.repr == PositionRepr::List(r),
    {
        match self.repr {
            PositionRepr::List(row) => row,
            PositionRepr::Prompt(col) => col,
        }
    }

    /// Goes one step back, or stays at the start of the prompt or the list.
    pub fn retract(&mut self)
        requires
            match old(self).repr {
                PositionRepr::Prompt(_) => true,
                PositionRepr::List(r) => r > 0 ==> old(self).row > 0,
            },
        ensures
            *final(self) == old(self).retracted(),
            forall|origin: u16| old(self).wf(origin) ==> #[trigger] final(self).wf(origin),
    {
        match self.repr {
            PositionRepr::Prompt(prompt_col) => {
                if prompt_col > 0 {
                    self.repr = PositionRepr::Prompt(prompt_col - 1);
                    if self.col > 0 {
                        self.col = self.col - 1;
                    }
                }
            },
            PositionRepr::List(list_row) => {
                if list_row > 0 {
                    self.repr = PositionRepr::List(list_row - 1);
                    self.row = self.row - 1;
                }
            },
        }
    }

    /// Goes one step on, or stays where the terminal or the list ends.
    pub fn advance(&mut self, element_count: usize, size: (u16, u16))
        requires
            size.0 > 0,
            size.1 > 0,
            match old(self).repr {
                PositionRepr::Prompt(c) => c < u16::MAX && (c + 1 < size.0 - 1 ==> old(self).col
                    < u16::MAX),
                PositionRepr::List(r) => r < u16::MAX && (r + 1 < element_count && r + 1
                    < LIST_ROWS && r + 1 < size.1 - 1 ==> old(self).row < u16::MAX),
            },
        ensures
            *final(self) == old(self).advanced(element_count, size),
            forall|origin: u16| old(self).wf(origin) ==> #[trigger] final(self).wf(origin),
    {
        let limit: usize = if element_count < 10 {
            element_count
        } else {
            10
        };
        let max_col: u16 = size.0 - 1;
        let max_row: u16 = size.1 - 1;
        match self.repr {
            PositionRepr::Prompt(prompt_col) => {
                if prompt_col + 1 < max_col {
                    self.repr = PositionRepr::Prompt(prompt_col + 1);
                    self.col = self.col + 1;
                }
            },
            PositionRepr::List(list_row) => {
                let next: u16 = list_row + 1;
                if (next as usize) < limit && next < max_row {
                    self.repr = PositionRepr::List(next);
                    self.row = self.row + 1;
                }
            },
        }
    }

    /// Goes to the start of the other part of the screen, where the prompt is in
    /// row `origin`.
    pub fn transition(&mut self, origin: u16)
        requires
            old(self).repr is Prompt ==> origin < u16::MAX,
        ensures
            *final(self) == old(self).transitioned(origin),
            final(self).wf(origin),
    {
        match self.repr {
            PositionRepr::Prompt(_) => *self = Position::new_list(origin, 0),
            PositionRepr::List(_) => *self = Position::new_prompt(origin, 0),
        }
    }
}

/// Going one step on and back again leads to where it started, unless the screen
/// or the list ends there.
pub proof fn law_advance_retract(p: Position, origin: u16, element_count: usize, size: (u16, u16))
    requires
        p.wf(origin),
        origin <= MAX_ORIGIN,
        size.0 > 0,
        size.1 > 0,
        p.advanced(element_count, size) != p,
    ensures
        p.advanced(element_count, size).retracted() == p,
{
}

/// The cursor stays within the symbols of the list and above the last row of the
/// terminal, wherever it goes.
pub proof fn law_list_bounds(p: Position, element_count: usize, size: (u16, u16))
    requires
        p.repr is List,
        p.repr->List_0 < element_count,
        p.repr->List_0 < LIST_ROWS,
    ensures
        p.advanced(element_count, size).repr is List,
        p.advanced(element_count, size).repr->List_0 < element_count,
        p.advanced(element_count, size).repr->List_0 < LIST_ROWS,
        p.retracted().repr is List,
        p.retracted().repr->List_0 <= p.repr->List_0,
{
}

/// Switching between the prompt and the list twice leads to the start of the
/// part that one was in.
pub proof fn law_transition_twice(p: Position, origin: u16)
    requires
        origin < u16::MAX,
    ensures
        p.transitioned(origin).transitioned(origin) == (match p.repr {
            PositionRepr::Prompt(_) => at_prompt(origin, 0),
            PositionRepr::List(_) => at_list(origin, 0),
        }),
{
}

} // verus!
