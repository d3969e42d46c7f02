//! Points, vectors and axis-aligned rectangles on the fixed-point grid.
use vstd::prelude::*;

verus! {

/// Subpixels in one pixel: positions and velocities are fixed-point numbers
/// with this many steps per pixel.
pub const SUBPIXELS_PER_PIXEL: i64 = 1000;

/// Largest magnitude of a coordinate or a side that the rectangle test
/// accepts; sums of two such values stay far inside `i64`.
pub const RECT_LIMIT: i64 = 1_000_000_000_000_000;

/// A two-dimensional vector in subpixels.
#[derive(Clone, Copy, Debug, PartialEq, Eq, Structural)]
pub struct Vec2 {
    pub x: i64,
    pub y: i64,
}

impl Vec2 {
    pub fn new(x: i64, y: i64) -> (r: Vec2)
        ensures
            r.x == x,
            r.y == y,
    {
        Vec2 { x, y }
    }
}

/// An axis-aligned rectangle: its top-left corner and its extent, in subpixels.
#[derive(Clone, Copy, Debug, PartialEq, Eq, Structural)]
pub struct Rect {
    pub x: i64,
    pub y: i64,
    pub width: i64,
    pub height: i64,
}

/// The mathematical value of a rectangle.
pub struct RectView {
    pub x: int,
    pub y: int,
    pub width: int,
    pub height: int,
}

impl RectView {
    /// The two rectangles share interior area: each one starts before the
    /// other ends, on both axes. Rectangles that only touch do not overlap.
    pub open spec fn overlaps(self, other: RectView) -> bool {
        &&& self.x < other.x + other.width
        &&& self.x + self.width > other.x
        &&& self.y < other.y + other.height
        &&& self.y + self.height > other.y
    }
}

impl View for Rect {
    type V = RectView;

    open spec fn view(&self) -> RectView {
        RectView {
            x: self.x as int,
            y: self.y as int,
            width: self.width as int,
            height: self.height as int,
        }
    }
}

impl Rect {
    /// Every field lies within `RECT_LIMIT` in magnitude.
    pub open spec fn in_limits(self) -> bool {
        &&& -RECT_LIMIT <= self.x <= RECT_LIMIT
        &&& -RECT_LIMIT <= self.y <= RECT_LIMIT
        &&& -RECT_LIMIT <= self.width <= RECT_LIMIT
        &&& -RECT_LIMIT <= self.height <= RECT_LIMIT
    }

    /// Whether `self` and `other` overlap: the same four strict comparisons
    /// as the rectangle test of the graphics framework that draws the game.
    pub fn intersects(&self, other: &Rect) -> (r: bool)
        requires
            self.in_limits(),
            other.in_limits(),
        ensures
            r == self@.overlaps(other@),
    {
        self.x < other.x + other.width
            && self.x + self.width > other.x
            && self.y < other.y + other.height
            && self.y + self.height > other.y
    }
}

} // verus!
