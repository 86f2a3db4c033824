//! Ray-sphere intersection.

use crate::fx::{fx_add_v, fx_div_v, fx_mul_v, fx_neg_v, fx_sqrt_v, fx_sub_v, Fx, SCALE};
use crate::geo::point3::Point3;
use crate::geo::ray::{ray_eval, Ray, RayV};
use crate::geo::vec3::{v3_dot, v3_len_squared, v3_scale, v3_sub, V3};
use crate::hit::{hit_new_v, opt_hit_v, HitStruct, HitV};
use crate::material::Material;
use vstd::prelude::*;

verus! {

/// An implicit sphere of the given center and radius.
#[derive(Clone, Copy, Debug, PartialEq, Eq, Structural)]
pub struct Sphere {
    pub center: Point3,
    pub radius: Fx,
    pub material: Material,
}

/// The record a hit of the sphere at time `t` produces: the hit point is the
/// ray position at `t`, and the outward normal `(p - center) / radius` is
/// reoriented against the ray.
pub open spec fn sphere_record_v(center: V3, radius: int, m: Material, ray: RayV, t: int) -> HitV {
    let p = ray_eval(ray, t);
    let outward = v3_scale(v3_sub(p, center), fx_div_v(SCALE as int, radius));
    hit_new_v(t, p, ray.d, outward, m)
}

/// Whether and where a ray first meets the sphere strictly inside the window
/// `(t_min, t_max)`. With `oc = origin - center`, the quadratic
/// `|oc + t * d|^2 == radius^2` in `t` has half-form coefficients
/// `a = |d|^2`, `b = oc . d`, `c = |oc|^2 - radius^2` and discriminant
/// `b^2 - a * c` (the textbook factor of four cancels); a positive
/// discriminant admits the roots `(-b -+ sqrt) / a`, tried nearest first.
#[verifier::opaque]
pub open spec fn sphere_hit_v(
    center: V3,
    radius: int,
    m: Material,
    ray: RayV,
    t_min: int,
    t_max: int,
) -> Option<HitV> {
    let oc = v3_sub(ray.o, center);
    let a = v3_len_squared(ray.d);
    let b = v3_dot(oc, ray.d);
    let c = fx_sub_v(v3_len_squared(oc), fx_mul_v(radius, radius));
    let disc = fx_sub_v(fx_mul_v(b, b), fx_mul_v(a, c));
    if disc > 0 {
        let sq = fx_sqrt_v(disc);
        let near = fx_div_v(fx_sub_v(fx_neg_v(b), sq), a);
        if t_min < near && near < t_max {
            Option::Some(sphere_record_v(center, radius, m, ray, near))
        } else {
            let far = fx_div_v(fx_add_v(fx_neg_v(b), sq), a);
            if t_min < far && far < t_max {
                Option::Some(sphere_record_v(center, radius, m, ray, far))
            } else {
                Option::None
            }
        }
    } else {
        Option::None
    }
}

impl Sphere {
    /// Returns the nearest intersection of the ray with the sphere strictly
    /// inside `(t_min, t_max)`, if any, with the normal oriented against the
    /// ray.
    pub fn hit(&self, ray: &Ray, t_min: Fx, t_max: Fx) -> (r: Option<HitStruct>)
        ensures
            opt_hit_v(r) == sphere_hit_v(
                self.center@,
                self.radius.raw as int,
                self.material,
                ray@,
                t_min.raw as int,
                t_max.raw as int,
            ),
    {
        proof {
            reveal(sphere_hit_v);
        }
        let material = self.material;
        let oc = ray.origin().sub(self.center);

        let a = ray.direction().len_squared();
        let b = oc.dot(ray.direction());
        let c = oc.len_squared().sub(self.radius.mul(self.radius));
        let discriminant = b.mul(b).sub(a.mul(c));

        if Fx::zero().lt(discriminant) {
            let sq = discriminant.sqrt();

            let t = b.neg().sub(sq).div(a);
            if t_min.lt(t) && t.lt(t_max) {
                let p = ray.eval(t);
                let n = p.sub(self.center).scale(self.radius.recip());
                return Some(HitStruct::new(t, p, ray, n, material));
            }

            let t = b.neg().add(sq).div(a);
            if t_min.lt(t) && t.lt(t_max) {
                let p = ray.eval(t);
                let n = p.sub(self.center).scale(self.radius.recip());
                return Some(HitStruct::new(t, p, ray, n, material));
            }
        }

        None
    }
}

} // verus!
