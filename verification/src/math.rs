//! Points and rectangles on a render target.
//!
//! Coordinates are integers. All that the library does with them is to store
//! and to order them, so an application may feed it any encoding of its own
//! coordinates that keeps their order.

use vstd::prelude::*;

verus! {

/// A point, or a displacement, in the plane of a render target.
#[derive(Debug, Clone, Copy, PartialEq, Eq, Hash, Structural)]
pub struct Vec2 {
    pub x: i32,
    pub y: i32,
}

impl Vec2 {
    pub fn new(x: i32, y: i32) -> (point: Vec2)
        ensures
            point == (Vec2 { x, y }),
    {
        Vec2 { x, y }
    }
}

/// An axis-aligned rectangle, given by its corners of least and of greatest
/// coordinates. Its edges belong to it.
#[derive(Debug, Clone, Copy, PartialEq, Eq, Hash, Structural)]
pub struct Rect {
    pub min: Vec2,
    pub max: Vec2,
}

impl Rect {
    /// Whether `point` lies in the closed rectangle.
    pub open spec fn spec_contains(&self, point: Vec2) -> bool {
        &&& self.min.x <= point.x <= self.max.x
        &&& self.min.y <= point.y <= self.max.y
    }

    /// Whether `point` lies in the rectangle, its edges included.
    ///
    /// The point is measured from both corners: it is inside when neither
    /// component falls short of `min` and neither exceeds `max`.
    #[verifier::when_used_as_spec(spec_contains)]
    pub fn contains(&self, point: Vec2) -> (inside: bool)
        ensures
            inside == self.spec_contains(point),
    {
        let from_min_x: i64 = point.x as i64 - self.min.x as i64;
        let from_min_y: i64 = point.y as i64 - self.min.y as i64;
        let from_max_x: i64 = point.x as i64 - self.max.x as i64;
        let from_max_y: i64 = point.y as i64 - self.max.y as i64;
        let least_from_min: i64 = if from_min_x < from_min_y {
            from_min_x
        } else {
            from_min_y
        };
        let greatest_from_max: i64 = if from_max_x > from_max_y {
            from_max_x
        } else {
            from_max_y
        };
        least_from_min >= 0 && greatest_from_max <= 0
    }
}

} // verus!
