use vstd::prelude::*;

verus! {

/// A rectangle of terminal cells: origin plus extent, in cell units.
///
/// The far edges saturate at `u16::MAX`, so a position is a pair of `u16`
/// values strictly below them.
#[derive(Clone, Copy, Debug, PartialEq, Eq)]
pub struct Area {
    pub x: u16,
    pub y: u16,
    pub width: u16,
    pub height: u16,
}

impl Area {
    /// First column right of the rectangle.
    pub open spec fn right(self) -> int {
        if self.x + self.width > u16::MAX {
            u16::MAX as int
        } else {
            self.x + self.width
        }
    }

    /// First line below the rectangle.
    pub open spec fn bottom(self) -> int {
        if self.y + self.height > u16::MAX {
            u16::MAX as int
        } else {
            self.y + self.height
        }
    }

    /// Whether the cell at column `x`, line `y` lies inside the rectangle.
    pub open spec fn holds(self, x: int, y: int) -> bool {
        self.x <= x < self.right() && self.y <= y < self.bottom()
    }

    pub fn new(x: u16, y: u16, width: u16, height: u16) -> (a: Area)
        ensures
            a.x == x,
            a.y == y,
            a.width == width,
            a.height == height,
    {
        Area { x, y, width, height }
    }

    /// Whether the rectangle covers no cell by its extent.
    pub fn is_empty(&self) -> (e: bool)
        ensures
            e == (self.width == 0 || self.height == 0),
    {
        self.width == 0 || self.height == 0
    }

    pub fn right_edge(&self) -> (r: u16)
        ensures
            r == self.right(),
    {
        if self.width > u16::MAX - self.x {
            u16::MAX
        } else {
            self.x + self.width
        }
    }

    pub fn bottom_edge(&self) -> (b: u16)
        ensures
            b == self.bottom(),
    {
        if self.height > u16::MAX - self.y {
            u16::MAX
        } else {
            self.y + self.height
        }
    }

    /// Containment test on positions that may lie beyond the `u16` range.
    pub fn contains(&self, x: usize, y: usize) -> (inside: bool)
        ensures
            inside == self.holds(x as int, y as int),
    {
        let right: u16 = self.right_edge();
        let bottom: u16 = self.bottom_edge();
        x >= self.x as usize && x < right as usize && y >= self.y as usize && y < bottom as usize
    }
}

} // verus!
