//! Screen rectangles and hit testing.

use vstd::prelude::*;
use embedded_graphics::prelude::{Point, Size};
use embedded_graphics::primitives::Rectangle;

verus! {

/// Largest coordinate value that screen arithmetic may reach.
pub open spec fn coord_max() -> int {
    0x7fff_ffff
}

/// An axis-aligned rectangle: top-left corner and size in pixels.
#[derive(Clone, Copy, Debug, PartialEq, Eq)]
pub struct Rect {
    pub x: i32,
    pub y: i32,
    pub w: u32,
    pub h: u32,
}

impl Rect {
    /// The right and bottom edges are representable as `i32`.
    pub open spec fn wf(self) -> bool {
        &&& self.w <= coord_max()
        &&& self.h <= coord_max()
        &&& self.x + self.w <= coord_max()
        &&& self.y + self.h <= coord_max()
    }

    /// The point lies inside the rectangle (right and bottom edges excluded).
    pub open spec fn has(self, px: int, py: int) -> bool {
        &&& self.x <= px < self.x + self.w
        &&& self.y <= py < self.y + self.h
    }

    /// Builds a rectangle from its corner and size.
    pub fn new(x: i32, y: i32, w: u32, h: u32) -> (r: Rect)
        ensures
            r == (Rect { x, y, w, h }),
    {
        Rect { x, y, w, h }
    }

    /// Whether the point lies inside the rectangle.
    pub fn contains(&self, px: i32, py: i32) -> (b: bool)
        requires
            self.wf(),
        ensures
            b == self.has(px as int, py as int),
    {
        px >= self.x && px < self.x + self.w as i32 && py >= self.y && py < self.y + self.h as i32
    }
}

/// Hit test through `embedded_graphics`' `Rectangle::contains`.
///
/// Trusted: `Rectangle::contains` (embedded-graphics-core 0.4) returns false for a
/// zero width or height, and otherwise compares the point with the top-left corner
/// and with `top_left + size - (1, 1)`; for a rectangle whose edges fit in `i32`
/// this is exactly `Rect::has`.
#[verifier::external_body]
pub(crate) fn eg_contains(r: Rect, px: i32, py: i32) -> (b: bool)
    requires
        r.wf(),
    ensures
        b == r.has(px as int, py as int),
{
    Rectangle::new(Point::new(r.x, r.y), Size::new(r.w, r.h)).contains(Point::new(px, py))
}

/// Hit test of an optional area: an absent area contains nothing.
pub fn opt_contains(area: Option<Rect>, px: i32, py: i32) -> (b: bool)
    requires
        area matches Some(r) ==> r.wf(),
    ensures
        b == (area matches Some(r) && r.has(px as int, py as int)),
{
    match area {
        Some(r) => eg_contains(r, px, py),
        None => false,
    }
}

} // verus!
