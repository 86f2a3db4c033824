//! Rays: an origin point and a direction of travel.

use crate::fx::Fx;
use crate::geo::point3::{p3_add_v3, Point3};
use crate::geo::vec3::{v3_normalized, v3_scale, Vec3, V3};
use vstd::prelude::*;

verus! {

/// A ray of origin `o` and direction `d`; positions along it are
/// `o + d * t`. The direction need not be of unit length.
pub struct Ray {
    /// Origin of the ray.
    pub o: Point3,
    /// Direction of ray travel.
    pub d: Vec3,
}

/// The mathematical image of a ray: origin and direction coordinates.
#[verifier::ext_equal]
pub ghost struct RayV {
    pub o: V3,
    pub d: V3,
}

impl View for Ray {
    type V = RayV;

    open spec fn view(&self) -> RayV {
        RayV { o: self.o@, d: self.d@ }
    }
}

/// The position along a ray at time `t`.
pub open spec fn ray_eval(r: RayV, t: int) -> V3 {
    p3_add_v3(r.o, v3_scale(r.d, t))
}

/// Ray parameterization: the position along a ray at time `t` is its origin
/// advanced by `t` times its direction, in the fixed-point algebra.
pub proof fn lemma_ray_parameterization(r: RayV, t: int)
    ensures
        ray_eval(r, t) == p3_add_v3(r.o, v3_scale(r.d, t)),
{
}

impl Ray {
    /// Creates a new ray from origin point `o` and direction vector `d`,
    /// stored as given.
    pub fn new(o: Point3, d: Vec3) -> (r: Ray)
        ensures
            r@.o == o@,
            r@.d == d@,
    {
        Ray { o, d }
    }

    /// Creates a new ray from origin point `o` and a direction vector `d`
    /// that is normalized before being stored.
    pub fn new_unnormalized(o: Point3, d: Vec3) -> (r: Ray)
        ensures
            r@.o == o@,
            r@.d == v3_normalized(d@),
    {
        Ray::new(o, d.normalized())
    }

    pub fn origin(&self) -> (r: Point3)
        ensures
            r@ == self@.o,
    {
        self.o
    }

    pub fn direction(&self) -> (r: Vec3)
        ensures
            r@ == self@.d,
    {
        self.d
    }

    pub fn origin_and_direction(&self) -> (r: (Point3, Vec3))
        ensures
            r.0@ == self@.o,
            r.1@ == self@.d,
    {
        (self.origin(), self.direction())
    }

    /// Calculates the position along the ray at time `t`:
    /// `origin + direction * t`.
    pub fn eval(&self, t: Fx) -> (r: Point3)
        ensures
            r@ == ray_eval(self@, t.raw as int),
    {
        self.o.add_vec(self.d.scale(t))
    }
}

} // verus!
