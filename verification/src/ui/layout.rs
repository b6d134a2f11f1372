use vstd::prelude::*;

verus! {

/// A rectangle of terminal cells: the column and row of its top-left corner and its size.
#[derive(Debug, Clone, Copy, PartialEq, Eq, Structural)]
pub struct Area {
    pub x: u16,
    pub y: u16,
    pub width: u16,
    pub height: u16,
}

/// A size cut so that an extent starting at `start` ends at `u16::MAX` at most.
pub open spec fn clipped(start: u16, size: u16) -> u16 {
    if start + size > u16::MAX {
        (u16::MAX - start) as u16
    } else {
        size
    }
}

impl Area {
    /// The rectangle at (`x`, `y`) of the given size, cut so that it ends inside the
    /// `u16` coordinate range, as a terminal rectangle is built.
    pub open spec fn spec_new(x: u16, y: u16, width: u16, height: u16) -> Area {
        Area { x, y, width: clipped(x, width), height: clipped(y, height) }
    }

    pub fn new(x: u16, y: u16, width: u16, height: u16) -> (area: Area)
        ensures
            area == Area::spec_new(x, y, width, height),
    {
        let width = x.saturating_add(width) - x;
        let height = y.saturating_add(height) - y;
        Area { x, y, width, height }
    }
}

} // verus!
