//! Screen geometry in whole pixels: points, displacements and rectangles.

use vstd::prelude::*;

verus! {

/// A pixel position on the screen.
#[derive(Clone, Copy, Debug, PartialEq, Eq, Structural)]
pub struct Point {
    pub x: i32,
    pub y: i32,
}

/// A displacement in pixels.
#[derive(Clone, Copy, Debug, PartialEq, Eq, Structural)]
pub struct Offset {
    pub dx: i32,
    pub dy: i32,
}

/// A rectangle anchored at its top-left corner.
#[derive(Clone, Copy, Debug, PartialEq, Eq, Structural)]
pub struct Rect {
    pub x: i32,
    pub y: i32,
    pub w: u32,
    pub h: u32,
}

/// Whether `v` can be held in a pixel coordinate.
pub open spec fn is_coordinate(v: int) -> bool {
    i32::MIN <= v <= i32::MAX
}

impl Point {
    /// Whether the point moved by `by` still has pixel coordinates.
    pub open spec fn spec_can_shift(self, by: Offset) -> bool {
        is_coordinate(self.x + by.dx) && is_coordinate(self.y + by.dy)
    }

    /// The point moved by `by`.
    pub open spec fn spec_shifted(self, by: Offset) -> Point
        recommends
            self.spec_can_shift(by),
    {
        Point { x: (self.x + by.dx) as i32, y: (self.y + by.dy) as i32 }
    }

    /// Whether the point moved by `by` still has pixel coordinates.
    #[verifier::when_used_as_spec(spec_can_shift)]
    pub fn can_shift(self, by: Offset) -> (r: bool)
        ensures
            r == self.spec_can_shift(by),
    {
        self.x.checked_add(by.dx).is_some() && self.y.checked_add(by.dy).is_some()
    }

    /// The point moved by `by`.
    #[verifier::when_used_as_spec(spec_shifted)]
    pub fn shifted(self, by: Offset) -> (r: Point)
        requires
            self.can_shift(by),
        ensures
            r == self.spec_shifted(by),
            r.x == self.x + by.dx,
            r.y == self.y + by.dy,
    {
        Point { x: self.x + by.dx, y: self.y + by.dy }
    }
}

impl Rect {
    /// Whether the rectangle moved by `by` still has pixel coordinates.
    pub open spec fn spec_can_shift(self, by: Offset) -> bool {
        is_coordinate(self.x + by.dx) && is_coordinate(self.y + by.dy)
    }

    /// The rectangle moved by `by`, its size kept.
    pub open spec fn spec_shifted(self, by: Offset) -> Rect
        recommends
            self.spec_can_shift(by),
    {
        Rect { x: (self.x + by.dx) as i32, y: (self.y + by.dy) as i32, w: self.w, h: self.h }
    }

    /// Half the width, rounded down.
    pub open spec fn spec_half_width(self) -> i32 {
        (self.w as int / 2) as i32
    }

    /// Whether the rectangle moved by `by` still has pixel coordinates.
    #[verifier::when_used_as_spec(spec_can_shift)]
    pub fn can_shift(self, by: Offset) -> (r: bool)
        ensures
            r == self.spec_can_shift(by),
    {
        self.x.checked_add(by.dx).is_some() && self.y.checked_add(by.dy).is_some()
    }

    /// The rectangle moved by `by`, its size kept.
    #[verifier::when_used_as_spec(spec_shifted)]
    pub fn shifted(self, by: Offset) -> (r: Rect)
        requires
            self.can_shift(by),
        ensures
            r == self.spec_shifted(by),
            r.x == self.x + by.dx,
            r.y == self.y + by.dy,
    {
        Rect { x: self.x + by.dx, y: self.y + by.dy, w: self.w, h: self.h }
    }

    /// Half the width, rounded down.
    #[verifier::when_used_as_spec(spec_half_width)]
    pub fn half_width(self) -> (r: i32)
        ensures
            r == self.spec_half_width(),
            r == self.w as int / 2,
    {
        (self.w / 2) as i32
    }
}

} // verus!
