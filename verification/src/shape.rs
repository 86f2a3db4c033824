//! Primitive shapes: spheres and triangles.

pub mod sphere;
pub mod triangle;

pub use sphere::Sphere;
pub use triangle::Triangle;

use crate::fx::Fx;
use crate::geo::ray::{Ray, RayV};
use crate::hit::{opt_hit_v, HitStruct, HitV};
use vstd::prelude::*;

verus! {

/// A geometric primitive; the set is closed, so intersection dispatches over
/// a tagged variant.
#[derive(Clone, Copy, Debug, PartialEq, Eq)]
pub enum Primitive {
    Sphere(Sphere),
    Triangle(Triangle),
}

/// Whether and where a ray meets the primitive strictly inside the window
/// `(t_min, t_max)`.
pub open spec fn primitive_hit_v(p: Primitive, ray: RayV, t_min: int, t_max: int) -> Option<
    HitV,
> {
    match p {
        Primitive::Sphere(s) => sphere::sphere_hit_v(
            s.center@,
            s.radius.raw as int,
            s.material,
            ray,
            t_min,
            t_max,
        ),
        Primitive::Triangle(t) => triangle::triangle_hit_v(
            t.positions[0]@,
            t.positions[1]@,
            t.positions[2]@,
            t.material,
            ray,
            t_min,
            t_max,
        ),
    }
}

impl Primitive {
    /// Returns the nearest intersection of the ray with the primitive
    /// strictly inside `(t_min, t_max)`, if any, with the normal oriented
    /// against the ray.
    pub fn hit(&self, ray: &Ray, t_min: Fx, t_max: Fx) -> (r: Option<HitStruct>)
        ensures
            opt_hit_v(r) == primitive_hit_v(*self, ray@, t_min.raw as int, t_max.raw as int),
    {
        match self {
            Primitive::Sphere(s) => s.hit(ray, t_min, t_max),
            Primitive::Triangle(t) => t.hit(ray, t_min, t_max),
        }
    }
}

} // verus!
