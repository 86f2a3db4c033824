//! Points in 3-dimensional space.

use crate::fx::{fx_add_v, fx_max_v, fx_min_v, fx_mul_v, fx_sub_v, Fx};
use crate::geo::vec3::{v3_scale, v3_sub, Vec3, V3};
use vstd::prelude::*;

verus! {

/// A point in 3-dimensional space. Point-point subtraction yields a vector
/// and point-vector addition yields a point; points themselves do not sum.
#[derive(Clone, Copy, Debug, PartialEq, Eq, Structural)]
pub struct Point3 {
    pub x: Fx,
    pub y: Fx,
    pub z: Fx,
}

impl View for Point3 {
    type V = V3;

    open spec fn view(&self) -> V3 {
        V3 { x: self.x.raw as int, y: self.y.raw as int, z: self.z.raw as int }
    }
}

pub open spec fn p3_add_v3(p: V3, v: V3) -> V3 {
    V3 { x: fx_add_v(p.x, v.x), y: fx_add_v(p.y, v.y), z: fx_add_v(p.z, v.z) }
}

pub open spec fn p3_min(a: V3, b: V3) -> V3 {
    V3 { x: fx_min_v(a.x, b.x), y: fx_min_v(a.y, b.y), z: fx_min_v(a.z, b.z) }
}

pub open spec fn p3_max(a: V3, b: V3) -> V3 {
    V3 { x: fx_max_v(a.x, b.x), y: fx_max_v(a.y, b.y), z: fx_max_v(a.z, b.z) }
}

/// `p1 + (p2 - p1) * t`, the interpolation the executable `lerp` performs.
pub open spec fn p3_lerp(a: V3, b: V3, t: int) -> V3 {
    p3_add_v3(a, v3_scale(v3_sub(b, a), t))
}

impl Point3 {
    pub fn new(x: Fx, y: Fx, z: Fx) -> (r: Point3)
        ensures
            r@ == (V3 { x: x.raw as int, y: y.raw as int, z: z.raw as int }),
    {
        Point3 { x, y, z }
    }

    /// Returns the origin: (0, 0, 0).
    pub fn origin() -> (r: Point3)
        ensures
            r@ == (V3 { x: 0, y: 0, z: 0 }),
    {
        Point3 { x: Fx::zero(), y: Fx::zero(), z: Fx::zero() }
    }

    /// Componentwise minimum.
    pub fn min(&self, other: Point3) -> (r: Point3)
        ensures
            r@ == p3_min(self@, other@),
    {
        Point3 { x: self.x.min(other.x), y: self.y.min(other.y), z: self.z.min(other.z) }
    }

    /// Componentwise maximum.
    pub fn max(&self, other: Point3) -> (r: Point3)
        ensures
            r@ == p3_max(self@, other@),
    {
        Point3 { x: self.x.max(other.x), y: self.y.max(other.y), z: self.z.max(other.z) }
    }

    /// Point-vector addition.
    pub fn add_vec(self, v: Vec3) -> (r: Point3)
        ensures
            r@ == p3_add_v3(self@, v@),
    {
        Point3 { x: self.x.add(v.x), y: self.y.add(v.y), z: self.z.add(v.z) }
    }

    /// Point-point subtraction, yielding the vector from `other` to `self`.
    pub fn sub(self, other: Point3) -> (r: Vec3)
        ensures
            r@ == v3_sub(self@, other@),
    {
        Vec3 { x: self.x.sub(other.x), y: self.y.sub(other.y), z: self.z.sub(other.z) }
    }

    /// Point scaling.
    pub fn scale(self, s: Fx) -> (r: Point3)
        ensures
            r@ == v3_scale(self@, s.raw as int),
    {
        Point3 { x: self.x.mul(s), y: self.y.mul(s), z: self.z.mul(s) }
    }
}

/// Linearly interpolates between two points.
pub fn lerp(t: Fx, p1: Point3, p2: Point3) -> (r: Point3)
    ensures
        r@ == p3_lerp(p1@, p2@, t.raw as int),
{
    p1.add_vec(p2.sub(p1).scale(t))
}

} // verus!
