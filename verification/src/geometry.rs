//! Points and rectangles in the bar's integer pixel coordinate space.

use vstd::prelude::*;

verus! {

/// A pointer position. Positions a host hands in may lie anywhere, also
/// outside the control and at negative coordinates.
#[derive(Clone, Copy, PartialEq, Eq, Structural, Debug)]
pub struct Point {
    pub x: i32,
    pub y: i32,
}

/// An axis-aligned rectangle given by its top-left corner and its extent.
#[derive(Clone, Copy, PartialEq, Eq, Structural, Debug)]
pub struct Rect {
    pub x: i32,
    pub y: i32,
    pub width: i32,
    pub height: i32,
}

impl Point {
    /// The origin, which stands in for a missing pointer position.
    pub fn origin() -> (p: Point)
        ensures
            p == (Point { x: 0, y: 0 }),
    {
        Point { x: 0, y: 0 }
    }
}

impl Rect {
    /// A rectangle is well formed when its extent is not negative and its
    /// far edges still fit the coordinate space.
    pub open spec fn wf(self) -> bool {
        &&& 0 <= self.width
        &&& 0 <= self.height
        &&& self.x + self.width <= i32::MAX
        &&& self.y + self.height <= i32::MAX
    }

    /// Containment of a point: closed on the left and top edge, open on the
    /// right and bottom edge.
    pub open spec fn spec_contains(self, p: Point) -> bool {
        &&& self.x <= p.x < self.x + self.width
        &&& self.y <= p.y < self.y + self.height
    }

    /// Hit-test of a pointer position against this rectangle.
    pub fn contains(&self, p: Point) -> (r: bool)
        ensures
            r == self.spec_contains(p),
    {
        let x_in = self.x <= p.x && (p.x as i64) < self.x as i64 + self.width as i64;
        let y_in = self.y <= p.y && (p.y as i64) < self.y as i64 + self.height as i64;
        x_in && y_in
    }

    /// The horizontal center, rounded towards the left edge.
    pub open spec fn spec_center_x(self) -> int {
        self.x + self.width / 2
    }

    /// The vertical center, rounded towards the top edge.
    pub open spec fn spec_center_y(self) -> int {
        self.y + self.height / 2
    }

    /// The center point, with both coordinates rounded towards the
    /// rectangle's top-left corner.
    pub open spec fn spec_center(self) -> Point {
        Point { x: self.spec_center_x() as i32, y: self.spec_center_y() as i32 }
    }

    /// The center point of a well-formed rectangle.
    pub fn center(&self) -> (c: Point)
        requires
            self.wf(),
        ensures
            c == self.spec_center(),
            c.x == self.spec_center_x(),
            c.y == self.spec_center_y(),
    {
        proof {
            vstd::arithmetic::div_mod::lemma_div_pos_is_pos(self.width as int, 2);
            vstd::arithmetic::div_mod::lemma_div_nonincreasing(self.width as int, 2);
            vstd::arithmetic::div_mod::lemma_div_pos_is_pos(self.height as int, 2);
            vstd::arithmetic::div_mod::lemma_div_nonincreasing(self.height as int, 2);
        }
        let hw = (self.width as u32) / 2;
        let hh = (self.height as u32) / 2;
        Point { x: self.x + hw as i32, y: self.y + hh as i32 }
    }
}

} // verus!
