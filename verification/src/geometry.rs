//! Screen geometry: the usable size of the display and the conversion from
//! the caller's zero-based positions to the terminal's one-based coordinates.

use vstd::prelude::*;

verus! {

/// Rows at the bottom of the screen that are kept for status and messages.
pub const RESERVED_ROWS: u16 = 2;

/// The usable dimensions of the display, fixed when the session starts.
#[derive(Clone, Copy, Debug, PartialEq, Eq, Structural)]
pub struct Size {
    pub width: u16,
    pub height: u16,
}

/// A zero-based location in the caller's own coordinates. Nothing here holds
/// it against the screen's size.
#[derive(Clone, Copy, Debug, PartialEq, Eq, Structural)]
pub struct Position {
    pub x: usize,
    pub y: usize,
}

/// The rows left for display out of `reported` rows: all but the reserved
/// ones, and none where fewer than those are reported.
pub open spec fn display_height(reported: int) -> int {
    if reported >= RESERVED_ROWS as int {
        reported - RESERVED_ROWS as int
    } else {
        0
    }
}

/// The one-based terminal coordinate of a zero-based one: its successor, held
/// at the largest coordinate a terminal can be given.
pub open spec fn terminal_coordinate(logical: int) -> int {
    if logical + 1 <= u16::MAX as int {
        logical + 1
    } else {
        u16::MAX as int
    }
}

impl Size {
    /// The usable size of a screen that the system reports as `columns` wide
    /// and `rows` high.
    pub fn from_reported(columns: u16, rows: u16) -> (size: Size)
        ensures
            size.width == columns,
            size.height as int == display_height(rows as int),
            size.height <= rows,
    {
        let height: u16 = if rows >= RESERVED_ROWS {
            rows - RESERVED_ROWS
        } else {
            0
        };
        Size { width: columns, height }
    }
}

/// Converts one axis of a position to the coordinate the terminal is given.
/// The result is never zero and never wraps.
pub fn to_terminal_coordinate(logical: usize) -> (coordinate: u16)
    ensures
        coordinate as int == terminal_coordinate(logical as int),
        1 <= coordinate,
        logical < u16::MAX ==> coordinate as int == logical as int + 1,
        logical >= u16::MAX ==> coordinate == u16::MAX,
{
    if logical < 0xffff {
        (logical + 1) as u16
    } else {
        u16::MAX
    }
}

impl Position {
    /// The one-based column of this position.
    pub fn column(&self) -> (column: u16)
        ensures
            column as int == terminal_coordinate(self.x as int),
            column >= 1,
    {
        to_terminal_coordinate(self.x)
    }

    /// The one-based row of this position.
    pub fn row(&self) -> (row: u16)
        ensures
            row as int == terminal_coordinate(self.y as int),
            row >= 1,
    {
        to_terminal_coordinate(self.y)
    }
}

/// The conversion to terminal coordinates keeps the order of positions: a
/// position further right or further down never gets a smaller coordinate,
/// and every coordinate lies between one and the largest one.
pub proof fn lemma_terminal_coordinate_bounded_monotone(a: int, b: int)
    requires
        0 <= a <= b,
    ensures
        1 <= terminal_coordinate(a) <= terminal_coordinate(b) <= u16::MAX,
        terminal_coordinate(u16::MAX as int) == u16::MAX,
        terminal_coordinate(usize::MAX as int) == u16::MAX,
{
}

} // verus!
