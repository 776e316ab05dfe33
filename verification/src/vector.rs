//! A small geometric utility: a vector between two points, with coordinates
//! in millimetres. Its Euclidean length involves a square root and is
//! computed outside the verified library.

use vstd::prelude::*;

verus! {

/// A point in space, with coordinates in millimetres.
#[derive(Clone, Copy, Debug, PartialEq, Eq, Structural)]
pub struct Point {
    pub x: i64,
    pub y: i64,
    pub z: i64,
}

/// A vector given by its start and end points.
#[derive(Clone, Copy, Debug, PartialEq, Eq, Structural)]
pub struct Vector {
    pub start_point: Point,
    pub end_point: Point,
}

impl Vector {
    /// Builds the vector from `start_point` to `end_point`.
    pub fn new(start_point: Point, end_point: Point) -> (v: Self)
        ensures
            v.start_point == start_point,
            v.end_point == end_point,
    {
        Vector { start_point, end_point }
    }
}

} // verus!
