//! The rows of the list that are selected.

use crate::tui::position::{Position, LIST_ROWS};
use std::ops::Range;
use vstd::prelude::*;

verus! {

/// Where a selection is extended to.
#[derive(Debug, Clone, Copy, PartialEq, Eq, Structural)]
pub enum Dir {
    Up,
    Down,
}

/// What a [`Selection`] is: the first row, the row behind the last, and the row
/// that it started at.
#[verifier::ext_equal]
pub struct SelectionV {
    pub start: u16,
    pub end: u16,
    pub pivot: u16,
}

/// Selected rows, and the row that the selection started at.
#[derive(Debug)]
pub struct Selection {
    repr: SelectionRange,
    pivot: u16,
}

/// The range of rows that are selected.
#[derive(Debug)]
pub struct SelectionRange {
    repr: Range<u16>,
}

impl View for SelectionRange {
    type V = (u16, u16);

    closed spec fn view(&self) -> (u16, u16) {
        (self.repr.start, self.repr.end)
    }
}

impl View for Selection {
    type V = SelectionV;

    closed spec fn view(&self) -> SelectionV {
        SelectionV { start: self.repr@.0, end: self.repr@.1, pivot: self.pivot }
    }
}

impl Clone for SelectionRange {
    fn clone(&self) -> (r: Self)
        ensures
            r@ == self@,
    {
        SelectionRange::new(self.repr.start, self.repr.end)
    }
}

impl Clone for Selection {
    fn clone(&self) -> (r: Self)
        ensures
            r@ == self@,
    {
        Selection { repr: self.repr.clone(), pivot: self.pivot }
    }
}

impl SelectionRange {
    pub fn new(start: u16, end: u16) -> (r: Self)
        ensures
            r@ == (start, end),
    {
        SelectionRange { repr: Range { start, end } }
    }

    pub fn start(&self) -> (r: &u16)
        ensures
            *r == self@.0,
    {
        &self.repr.start
    }

    pub fn start_mut(&mut self) -> (r: &mut u16)
        ensures
            *r == old(self)@.0,
            final(self)@ == (*final(r), old(self)@.1),
    {
        &mut self.repr.start
    }

    pub fn end(&self) -> (r: &u16)
        ensures
            *r == self@.1,
    {
        &self.repr.end
    }

    pub fn end_mut(&mut self) -> (r: &mut u16)
        ensures
            *r == old(self)@.1,
            final(self)@ == (old(self)@.0, *final(r)),
    {
        &mut self.repr.end
    }

    pub fn into_inner(self) -> (r: Range<u16>)
        ensures
            (r.start, r.end) == self@,
    {
        self.repr
    }

    pub fn range(&self) -> (r: &Range<u16>)
        ensures
            (r.start, r.end) == self@,
    {
        &self.repr
    }

    pub fn range_mut(&mut self) -> (r: &mut Range<u16>)
        ensures
            (r.start, r.end) == old(self)@,
            final(self)@ == (final(r).start, final(r).end),
    {
        &mut self.repr
    }
}

impl Default for SelectionRange {
    /// A range is never empty to begin with.
    fn default() -> (r: Self)
        ensures
            r@ == (0u16, 1u16),
    {
        SelectionRange::new(0, 1)
    }
}

/// The selection of one row.
pub open spec fn single(pivot: u16) -> SelectionV {
    SelectionV { start: pivot, end: (pivot + 1) as u16, pivot }
}

impl SelectionV {
    /// Whether it holds at least one of the rows that the list can show, and no
    /// others.
    pub open spec fn wf(self) -> bool {
        &&& self.start < self.end <= LIST_ROWS
        &&& self.pivot < LIST_ROWS
    }

    /// The row that the cursor was on when it was last extended: the one at the far
    /// end from the pivot.
    pub open spec fn edge(self) -> int {
        if self.start < self.pivot {
            self.start as int
        } else {
            self.end - 1
        }
    }

    /// The selection after the cursor went up to `row`: above the pivot it gains
    /// a row at its start, and below it loses one at its end, down to a single
    /// row.
    pub open spec fn extended_up(self, row: u16) -> SelectionV {
        if row < self.pivot {
            if self.start > 0 {
                SelectionV { start: (self.start - 1) as u16, ..self }
            } else {
                self
            }
        } else if self.end > self.start + 1 {
            SelectionV { end: (self.end - 1) as u16, ..self }
        } else {
            self
        }
    }

    /// The selection after the cursor went down to `row`: up to the pivot it
    /// loses a row at its start, down to a single row, and below it gains one at
    /// its end. At the end of the list, where the cursor stays, it does too.
    pub open spec fn extended_down(self, row: u16) -> SelectionV {
        if row == self.edge() {
            self
        } else if row <= self.pivot {
            if self.start + 1 < self.end {
                SelectionV { start: (self.start + 1) as u16, ..self }
            } else {
                self
            }
        } else if self.end < LIST_ROWS {
            SelectionV { end: (self.end + 1) as u16, ..self }
        } else {
            self
        }
    }

    pub open spec fn extended(self, dir: Dir, row: u16) -> SelectionV {
        match dir {
            Dir::Up => self.extended_up(row),
            Dir::Down => self.extended_down(row),
        }
    }
}

impl Selection {
    /// A selection that starts, and for now ends, at a row.
    pub fn with_pivot(pivot: u16) -> (r: Self)
        requires
            pivot < u16::MAX,
        ensures
            r@ == single(pivot),
    {
        Selection { pivot, repr: SelectionRange::new(pivot, pivot + 1) }
    }

    pub fn map_ref<T, F: FnOnce(&Self) -> T>(&self, f: F) -> (r: T)
        requires
            call_requires(f, (self,)),
        ensures
            call_ensures(f, (self,), r),
    {
        f(self)
    }

    pub fn into_range(self) -> (r: Range<u16>)
        ensures
            r.start == self@.start,
            r.end == self@.end,
    {
        self.repr.into_inner()
    }

    pub fn range(&self) -> (r: &Range<u16>)
        ensures
            r.start == self@.start,
            r.end == self@.end,
    {
        self.repr.range()
    }

    pub fn range_mut(&mut self) -> (r: &mut Range<u16>)
        ensures
            r.start == old(self)@.start,
            r.end == old(self)@.end,
            final(self)@ == (SelectionV {
                start: final(r).start,
                end: final(r).end,
                pivot: old(self)@.pivot,
            }),
    {
        self.repr.range_mut()
    }

    /// Extends the selection after the cursor went up, or down, to `pos`.
    pub fn extend(&mut self, dir: Dir, pos: &Position)
        requires
            pos.repr is List,
            old(self)@.start < old(self)@.end,
        ensures
            final(self)@.start < final(self)@.end,
            final(self)@ == old(self)@.extended(dir, pos.repr->List_0),
            old(self)@.wf() ==> final(self)@.wf(),
    {
        let row: u16 = pos.into_list();
        let start: u16 = *self.repr.start();
        let end: u16 = *self.repr.end();
        match dir {
            Dir::Up => {
                if row < self.pivot {
                    if start > 0 {
                        *self.repr.start_mut() = start - 1;
                    }
                } else if end > start + 1 {
                    *self.repr.end_mut() = end - 1;
                }
            },
            Dir::Down => {
                let edge: u16 = if start < self.pivot {
                    start
                } else {
                    end - 1
                };
                if row == edge {
                    return ;
                }
                if row <= self.pivot {
                    if start + 1 < end {
                        *self.repr.start_mut() = start + 1;
                    }
                } else if end < 10 {
                    *self.repr.end_mut() = end + 1;
                }
            },
        }
    }
}

impl Default for Selection {
    fn default() -> (r: Self)
        ensures
            r@ == single(0),
            r@.wf(),
    {
        Selection { repr: SelectionRange::new(0, 1), pivot: 0 }
    }
}

/// Whether the selection spans the rows between the pivot and `row`, both of
/// them included.
pub open spec fn spans(s: SelectionV, row: u16) -> bool {
    if row < s.pivot {
        s.start == row && s.end == s.pivot + 1
    } else {
        s.start == s.pivot && s.end == row + 1
    }
}

/// As long as the cursor moves by a row or stays each time, the selection spans
/// the rows between the one that it started at and the one that the cursor is on.
pub proof fn law_extend_spans(s: SelectionV, row: u16)
    requires
        s.wf(),
        row < LIST_ROWS,
        spans(s, row),
    ensures
        s.extended(Dir::Down, row) == s,
        row == 0 ==> s.extended(Dir::Up, row) == s,
        row > 0 ==> spans(s.extended(Dir::Up, (row - 1) as u16), (row - 1) as u16),
        row + 1 < LIST_ROWS ==> spans(s.extended(Dir::Down, (row + 1) as u16), (row + 1) as u16),
{
}

/// A selection spans the row that it starts at.
pub proof fn law_pivot_spans(pivot: u16)
    requires
        pivot < LIST_ROWS,
    ensures
        single(pivot).wf(),
        spans(single(pivot), pivot),
{
}

} // verus!
