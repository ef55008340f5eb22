//! Rectangles of terminal cells.
use vstd::prelude::*;

verus! {

/// A rectangle of cells, by its upper left corner and its size.
#[derive(Debug, Clone, Copy, PartialEq, Eq, Structural)]
pub struct Rect {
    pub x: u16,
    pub y: u16,
    pub width: u16,
    pub height: u16,
}

/// The end of a span that starts at `from`: it never reaches past the last cell
/// that can be counted.
pub open spec fn span_end(from: u16, length: u16) -> int {
    if from + length <= u16::MAX {
        from + length
    } else {
        u16::MAX as int
    }
}

impl Rect {
    pub fn new(x: u16, y: u16, width: u16, height: u16) -> (rect: Self)
        ensures
            rect == (Rect { x, y, width, height }),
    {
        Rect { x, y, width, height }
    }

    /// Whether the cell lies in the rectangle.
    pub open spec fn covers(self, column: u16, row: u16) -> bool {
        &&& self.x <= column < span_end(self.x, self.width)
        &&& self.y <= row < span_end(self.y, self.height)
    }

    pub fn contains(self, column: u16, row: u16) -> (inside: bool)
        ensures
            inside == self.covers(column, row),
    {
        column >= self.x && column < self.x.saturating_add(self.width) && row >= self.y && row
            < self.y.saturating_add(self.height)
    }
}

} // verus!
