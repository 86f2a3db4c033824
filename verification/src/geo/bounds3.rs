//! Three-dimensional axis-aligned bounding boxes.

use crate::fx::{fx_add_v, fx_div_v, fx_max_v, fx_min_v, fx_mul_v, fx_sub_v, Fx, SCALE};
use crate::geo::point3::{lerp, p3_lerp, p3_max, p3_min, Point3};
use crate::geo::ray::Ray;
use crate::geo::vec3::{v3_sub, Vec3, V3};
use vstd::prelude::*;

verus! {

/// 3-dimensional axis-aligned bounding box (AABB).
#[derive(Clone, Copy, Debug, PartialEq, Eq, Structural)]
pub struct Bounds3 {
    pub min: Point3,
    pub max: Point3,
}

/// Surface area of the box: twice the sum of the three face areas, with the
/// products and sums taken in the order the executable code takes them.
pub open spec fn b3_area(bmin: V3, bmax: V3) -> int {
    let d = v3_sub(bmax, bmin);
    let t = fx_add_v(fx_add_v(fx_mul_v(d.x, d.y), fx_mul_v(d.y, d.z)), fx_mul_v(d.z, d.x));
    fx_add_v(t, t)
}

/// One slab test of the naive AABB-ray intersection: intersects the ray with
/// the two planes of one axis and tightens the time window.
pub open spec fn b3_slab(bmin: int, bmax: int, o: int, d: int, t_min: int, t_max: int) -> (
    int,
    int,
) {
    let inv = fx_div_v(SCALE as int, d);
    let u = fx_mul_v(fx_sub_v(bmin, o), inv);
    let v = fx_mul_v(fx_sub_v(bmax, o), inv);
    let t0 = fx_min_v(u, v);
    let t1 = fx_max_v(u, v);
    (fx_max_v(t0, t_min), fx_min_v(t1, t_max))
}

/// Whether a ray meets the box inside the time window `(t_min, t_max)`:
/// the three per-axis windows, tightened in turn, stay nonempty.
pub open spec fn b3_hit(bmin: V3, bmax: V3, o: V3, d: V3, t_min: int, t_max: int) -> bool {
    let (x_min, x_max) = b3_slab(bmin.x, bmax.x, o.x, d.x, t_min, t_max);
    if x_max <= x_min {
        false
    } else {
        let (y_min, y_max) = b3_slab(bmin.y, bmax.y, o.y, d.y, x_min, x_max);
        if y_max <= y_min {
            false
        } else {
            let (z_min, z_max) = b3_slab(bmin.z, bmax.z, o.z, d.z, y_min, y_max);
            z_max > z_min
        }
    }
}

impl Bounds3 {
    /// Constructs bounds from two opposing corners.
    pub fn from_corners(p1: Point3, p2: Point3) -> (r: Bounds3)
        ensures
            r.min@ == p3_min(p1@, p2@),
            r.max@ == p3_max(p1@, p2@),
    {
        let min = p1.min(p2);
        let max = p1.max(p2);
        Bounds3 { min, max }
    }

    /// Constructs bounds enclosing a single point.
    pub fn from_point(p: Point3) -> (r: Bounds3)
        ensures
            r.min == p,
            r.max == p,
    {
        Bounds3 { min: p, max: p }
    }

    /// Constructs an AABB enclosing two given AABBs.
    pub fn union(b1: &Bounds3, b2: &Bounds3) -> (r: Bounds3)
        ensures
            r.min@ == p3_min(b1.min@, b2.min@),
            r.max@ == p3_max(b1.max@, b2.max@),
    {
        let min = b1.min.min(b2.min);
        let max = b1.max.max(b2.max);
        Bounds3 { min, max }
    }

    /// Surface area of the bounding box.
    pub fn area(&self) -> (r: Fx)
        ensures
            r.raw as int == b3_area(self.min@, self.max@),
    {
        let d = self.diagonal();
        let t = d.x.mul(d.y).add(d.y.mul(d.z)).add(d.z.mul(d.x));
        t.add(t)
    }

    /// Main diagonal of the box, spanning from the min to the max corner.
    pub fn diagonal(&self) -> (r: Vec3)
        ensures
            r@ == v3_sub(self.max@, self.min@),
    {
        self.max.sub(self.min)
    }

    /// Quickly finds whether the ray hits the AABB in a given time interval.
    pub fn hit(&self, ray: &Ray, interval: (Fx, Fx)) -> (r: bool)
        ensures
            r == b3_hit(
                self.min@,
                self.max@,
                ray@.o,
                ray@.d,
                interval.0.raw as int,
                interval.1.raw as int,
            ),
    {
        let (t_min, t_max) = interval;
        hit_naive(self, ray, (t_min, t_max))
    }

    /// Center point of the box.
    pub fn centroid(&self) -> (r: Point3)
        ensures
            r@ == p3_lerp(self.min@, self.max@, (SCALE as int) / 2),
    {
        let half = Fx::from_ratio(1, 2);
        proof {
            assert(SCALE as int == 4294967296int);
            assert(4294967296int * 4294967296int == 0x1_0000_0000_0000_0000int)
                by (nonlinear_arith);
            assert(0x1_0000_0000_0000_0000int / 0x2_0000_0000int == 0x8000_0000int);
            assert(half.raw as int == (SCALE as int) / 2);
        }
        lerp(half, self.min, self.max)
    }
}

fn hit_naive(b: &Bounds3, r: &Ray, interval: (Fx, Fx)) -> (res: bool)
    ensures
        res == b3_hit(
            b.min@,
            b.max@,
            r@.o,
            r@.d,
            interval.0.raw as int,
            interval.1.raw as int,
        ),
{
    let (o, d) = r.origin_and_direction();

    let (t_min, t_max) = interval;

    let inv = d.x.recip();
    let u = b.min.x.sub(o.x).mul(inv);
    let v = b.max.x.sub(o.x).mul(inv);
    let (t0, t1) = min_max(u, v);
    let (t_min, t_max) = (t0.max(t_min), t1.min(t_max));
    if !t_min.lt(t_max) {
        return false;
    }

    let inv = d.y.recip();
    let u = b.min.y.sub(o.y).mul(inv);
    let v = b.max.y.sub(o.y).mul(inv);
    let (t0, t1) = min_max(u, v);
    let (t_min, t_max) = (t0.max(t_min), t1.min(t_max));
    if !t_min.lt(t_max) {
        return false;
    }

    let inv = d.z.recip();
    let u = b.min.z.sub(o.z).mul(inv);
    let v = b.max.z.sub(o.z).mul(inv);
    let (t0, t1) = min_max(u, v);
    let (t_min, t_max) = (t0.max(t_min), t1.min(t_max));
    t_min.lt(t_max)
}

#[inline]
fn min_max(u: Fx, v: Fx) -> (r: (Fx, Fx))
    ensures
        r.0.raw as int == fx_min_v(u.raw as int, v.raw as int),
        r.1.raw as int == fx_max_v(u.raw as int, v.raw as int),
{
    if u.lt(v) {
        (u, v)
    } else {
        (v, u)
    }
}

} // verus!
