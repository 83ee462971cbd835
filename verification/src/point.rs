//! Points of the plane.
use vstd::prelude::*;
use crate::scalar::Scalar;

verus! {

/// A point of the plane, by its two coordinates.
#[derive(Clone, Copy, Debug)]
pub struct Point2D {
    pub x: Scalar,
    pub y: Scalar,
}

impl Point2D {
    /// The point whose coordinates are both positive zero.
    pub open spec fn origin() -> Point2D {
        Point2D { x: Scalar { bits: 0 }, y: Scalar { bits: 0 } }
    }

    /// The point with the given coordinates.
    pub fn new(x: Scalar, y: Scalar) -> (r: Point2D)
        ensures
            r.x == x,
            r.y == y,
    {
        Point2D { x, y }
    }
}

impl Default for Point2D {
    /// The origin.
    fn default() -> (r: Point2D)
        ensures
            r == Point2D::origin(),
    {
        Point2D { x: Scalar { bits: 0 }, y: Scalar { bits: 0 } }
    }
}

} // verus!
