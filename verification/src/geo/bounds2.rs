//! Two-dimensional axis-aligned bounding boxes.

use crate::geo::point2::{p2_max, p2_min, Point2};
use vstd::prelude::*;

verus! {

/// 2-dimensional axis-aligned bounding box.
#[derive(Clone, Copy, Debug, PartialEq, Eq, Structural)]
pub struct Bounds2 {
    pub min: Point2,
    pub max: Point2,
}

impl Bounds2 {
    /// Constructs bounds from two opposing corners.
    pub fn from_corners(p1: Point2, p2: Point2) -> (r: Bounds2)
        ensures
            r.min@ == p2_min(p1@, p2@),
            r.max@ == p2_max(p1@, p2@),
    {
        let min = p1.min(p2);
        let max = p1.max(p2);
        Bounds2 { min, max }
    }

    /// Constructs bounds enclosing a single given point.
    pub fn from_point(p: Point2) -> (r: Bounds2)
        ensures
            r.min == p,
            r.max == p,
    {
        Bounds2 { min: p, max: p }
    }
}

} // verus!
