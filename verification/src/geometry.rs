//! Image-space points.

use vstd::prelude::*;

verus! {

/// An integer pixel coordinate; the origin is the top-left corner of the image.
#[derive(Clone, Copy, Debug, PartialEq, Eq, Structural)]
pub struct Point {
    pub x: i32,
    pub y: i32,
}

impl Point {
    /// Makes the point `(x, y)`.
    pub fn new(x: i32, y: i32) -> (p: Point)
        ensures
            p == (Point { x, y }),
    {
        Point { x, y }
    }
}

/// The outline of a circle to draw on a frame.
#[derive(Clone, Copy, Debug, PartialEq, Eq, Structural)]
pub struct Circle {
    pub center: Point,
    pub radius: i32,
}

} // verus!
