//! Integer vectors and rectangles.
//!
//! Texture sizes, upload rectangles and viewports are given in signed
//! texel coordinates, as the immediate-mode interface hands them over.

use vstd::prelude::*;

verus! {

/// A two-dimensional integer vector.
#[derive(Debug, Clone, Copy, PartialEq, Eq, Structural)]
pub struct Vector2I {
    pub x: i32,
    pub y: i32,
}

impl Vector2I {
    /// Both coordinates are zero or positive.
    pub open spec fn is_nonnegative(self) -> bool {
        self.x >= 0 && self.y >= 0
    }

    /// The area in texels, as a mathematical integer.
    pub open spec fn spec_area(self) -> int {
        self.x * self.y
    }

    pub fn new(x: i32, y: i32) -> (r: Vector2I)
        ensures
            r == (Vector2I { x, y }),
    {
        Vector2I { x, y }
    }

    pub fn zero() -> (r: Vector2I)
        ensures
            r == (Vector2I { x: 0, y: 0 }),
    {
        Vector2I { x: 0, y: 0 }
    }
}

/// An axis-aligned integer rectangle, as an origin and a size.
#[derive(Debug, Clone, Copy, PartialEq, Eq, Structural)]
pub struct RectI {
    pub origin: Vector2I,
    pub size: Vector2I,
}

impl RectI {
    pub fn new(origin: Vector2I, size: Vector2I) -> (r: RectI)
        ensures
            r == (RectI { origin, size }),
    {
        RectI { origin, size }
    }
}

/// Converts a coordinate that the caller promises is not negative.
pub fn expect_unsigned(x: i32) -> (r: u32)
    requires
        x >= 0,
    ensures
        r == x,
{
    x as u32
}

} // verus!
