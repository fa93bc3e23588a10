//! The host rectangle and the geometry of the overlay window.

use vstd::prelude::*;

verus! {

/// The on-screen region of the host window. A zero width or height means
/// that the region is not known yet.
#[derive(Clone, Copy, Debug, PartialEq, Eq, Structural)]
pub struct Rect {
    pub x: isize,
    pub y: isize,
    pub width: usize,
    pub height: usize,
}

/// The position and size of the overlay window, derived from the host
/// rectangle by the four percents of the session.
#[derive(Clone, Copy, Debug, PartialEq, Eq, Structural)]
pub struct Geometry {
    pub x: isize,
    pub y: isize,
    pub width: usize,
    pub height: usize,
}

impl Rect {
    /// The rectangle that stands for "not known yet".
    pub fn zero() -> (r: Rect)
        ensures
            r == (Rect { x: 0, y: 0, width: 0, height: 0 }),
    {
        Rect { x: 0, y: 0, width: 0, height: 0 }
    }
}

impl Geometry {
    /// Whether a window can have this geometry: neither side is zero.
    pub open spec fn visible(self) -> bool {
        self.width != 0 && self.height != 0
    }

    /// The number of pixels of a window of this geometry.
    pub open spec fn area(self) -> int {
        self.width * self.height
    }
}

} // verus!
