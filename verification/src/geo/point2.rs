//! Points in two-dimensional space.

use crate::fx::{fx_abs_v, fx_add_v, fx_max_v, fx_min_v, Fx};
use crate::geo::vec2::{Vec2, V2};
use vstd::prelude::*;

verus! {

/// A point in two-dimensional space.
#[derive(Clone, Copy, Debug, PartialEq, Eq, Structural)]
pub struct Point2 {
    pub x: Fx,
    pub y: Fx,
}

impl View for Point2 {
    type V = V2;

    open spec fn view(&self) -> V2 {
        V2 { x: self.x.raw as int, y: self.y.raw as int }
    }
}

pub open spec fn p2_min(a: V2, b: V2) -> V2 {
    V2 { x: fx_min_v(a.x, b.x), y: fx_min_v(a.y, b.y) }
}

pub open spec fn p2_max(a: V2, b: V2) -> V2 {
    V2 { x: fx_max_v(a.x, b.x), y: fx_max_v(a.y, b.y) }
}

impl Point2 {
    pub fn new(x: Fx, y: Fx) -> (r: Point2)
        ensures
            r@ == (V2 { x: x.raw as int, y: y.raw as int }),
    {
        Point2 { x, y }
    }

    /// Componentwise magnitude.
    pub fn abs(self) -> (r: Point2)
        ensures
            r@ == (V2 { x: fx_abs_v(self@.x), y: fx_abs_v(self@.y) }),
    {
        Point2::new(self.x.abs(), self.y.abs())
    }

    /// Componentwise minimum.
    pub fn min(self, other: Point2) -> (r: Point2)
        ensures
            r@ == p2_min(self@, other@),
    {
        let x = if self.x.le(other.x) {
            self.x
        } else {
            other.x
        };
        let y = if self.y.le(other.y) {
            self.y
        } else {
            other.y
        };
        Point2::new(x, y)
    }

    /// Componentwise maximum.
    pub fn max(self, other: Point2) -> (r: Point2)
        ensures
            r@ == p2_max(self@, other@),
    {
        let x = if other.x.le(self.x) {
            self.x
        } else {
            other.x
        };
        let y = if other.y.le(self.y) {
            self.y
        } else {
            other.y
        };
        Point2::new(x, y)
    }

    /// Point-vector addition.
    pub fn add_vec(self, v: Vec2) -> (r: Point2)
        ensures
            r@ == (V2 { x: fx_add_v(self@.x, v@.x), y: fx_add_v(self@.y, v@.y) }),
    {
        Point2::new(self.x.add(v.x), self.y.add(v.y))
    }
}

} // verus!
