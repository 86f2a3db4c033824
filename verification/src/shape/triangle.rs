//! Ray-triangle intersection.

use crate::fx::{fx_add_v, fx_div_v, fx_mul_v, Fx, SCALE};
use crate::geo::point3::{p3_add_v3, Point3};
use crate::geo::ray::{Ray, RayV};
use crate::geo::vec3::{v3_add, v3_cross, v3_dot, v3_normalized, v3_scale, v3_sub, Vec3, V3};
use crate::hit::{hit_new_v, opt_hit_v, HitStruct, HitV};
use crate::material::Material;
use vstd::prelude::*;

verus! {

/// Tolerance for the parallelism and self-intersection tests, about 1e-6 in
/// raw steps.
pub const EPSILON_RAW: i64 = 4295;

/// A triangle of three vertices.
#[derive(Clone, Copy, Debug, PartialEq, Eq)]
pub struct Triangle {
    pub positions: [Point3; 3],
    pub material: Material,
}

/// A raw ray-triangle intersection, before any time-window test.
#[derive(Clone, Copy, Debug, PartialEq, Eq)]
pub struct Intersection {
    /// Point of intersection.
    pub p: Point3,
    /// Normal at the point of intersection, a unit normal of the plane.
    pub n: Vec3,
    /// Time of intersection.
    pub t: Fx,
    /// Barycentric coordinates of the intersection.
    pub uv: (Fx, Fx),
}

/// The mathematical image of a raw intersection.
#[verifier::ext_equal]
pub ghost struct IntersectionV {
    pub p: V3,
    pub n: V3,
    pub t: int,
    pub u: int,
    pub v: int,
}

impl View for Intersection {
    type V = IntersectionV;

    open spec fn view(&self) -> IntersectionV {
        IntersectionV {
            p: self.p@,
            n: self.n@,
            t: self.t.raw as int,
            u: self.uv.0.raw as int,
            v: self.uv.1.raw as int,
        }
    }
}

/// The view of a possibly-absent intersection.
pub open spec fn opt_intersection_v(o: Option<Intersection>) -> Option<IntersectionV> {
    match o {
        Option::Some(i) => Option::Some(i@),
        Option::None => Option::None,
    }
}

/// The intersection the two-edge (Moeller-Trumbore) test finds, if any: a ray
/// within the tolerance of parallel to the plane misses; so does a
/// barycentric coordinate outside the triangle or a hit time within the
/// tolerance of the origin. On success the hit point is rebuilt from the
/// barycentric coordinates, and the normal is the unit normal of the plane.
#[verifier::opaque]
pub open spec fn moller_trumbore_v(v0: V3, v1: V3, v2: V3, ray: RayV) -> Option<IntersectionV> {
    let e1 = v3_sub(v1, v0);
    let e2 = v3_sub(v2, v0);
    let h = v3_cross(ray.d, e2);
    let a = v3_dot(e1, h);
    if -EPSILON_RAW < a < EPSILON_RAW {
        // ray is parallel to the triangle
        Option::None
    } else {
        let f = fx_div_v(SCALE as int, a);
        let s = v3_sub(ray.o, v0);
        let u = fx_mul_v(f, v3_dot(s, h));
        if u < 0 || u > SCALE {
            Option::None
        } else {
            let q = v3_cross(s, e1);
            let v = fx_mul_v(f, v3_dot(ray.d, q));
            if v < 0 || fx_add_v(u, v) > SCALE {
                Option::None
            } else {
                let t = fx_mul_v(f, v3_dot(e2, q));
                if t > EPSILON_RAW {
                    Option::Some(
                        IntersectionV {
                            p: p3_add_v3(v0, v3_add(v3_scale(e1, u), v3_scale(e2, v))),
                            n: v3_normalized(v3_cross(e1, e2)),
                            t,
                            u,
                            v,
                        },
                    )
                } else {
                    Option::None
                }
            }
        }
    }
}

/// Whether and where a ray meets the triangle strictly inside the window
/// `(t_min, t_max)`, the plane normal reoriented against the ray.
pub open spec fn triangle_hit_v(
    v0: V3,
    v1: V3,
    v2: V3,
    m: Material,
    ray: RayV,
    t_min: int,
    t_max: int,
) -> Option<HitV> {
    match moller_trumbore_v(v0, v1, v2, ray) {
        Option::Some(i) => {
            if t_min < i.t && i.t < t_max {
                Option::Some(hit_new_v(i.t, i.p, ray.d, i.n, m))
            } else {
                Option::None
            }
        },
        Option::None => Option::None,
    }
}

impl Triangle {
    /// Returns the intersection of the ray with the triangle strictly inside
    /// `(t_min, t_max)`, if any, with the normal oriented against the ray.
    pub fn hit(&self, ray: &Ray, t_min: Fx, t_max: Fx) -> (r: Option<HitStruct>)
        ensures
            opt_hit_v(r) == triangle_hit_v(
                self.positions[0]@,
                self.positions[1]@,
                self.positions[2]@,
                self.material,
                ray@,
                t_min.raw as int,
                t_max.raw as int,
            ),
    {
        if let Some(intersection) = self.intersection(ray) {
            let Intersection { p, t, n, .. } = intersection;
            if t_min.lt(t) && t.lt(t_max) {
                Some(HitStruct::new(t, p, ray, n, self.material))
            } else {
                None
            }
        } else {
            None
        }
    }

    /// The raw intersection of a ray with the triangle's plane and area,
    /// before any time-window test.
    pub fn intersection(&self, ray: &Ray) -> (r: Option<Intersection>)
        ensures
            opt_intersection_v(r) == moller_trumbore_v(
                self.positions[0]@,
                self.positions[1]@,
                self.positions[2]@,
                ray@,
            ),
    {
        moller_trumbore(ray, self)
    }
}

fn moller_trumbore(ray: &Ray, triangle: &Triangle) -> (r: Option<Intersection>)
    ensures
        opt_intersection_v(r) == moller_trumbore_v(
            triangle.positions[0]@,
            triangle.positions[1]@,
            triangle.positions[2]@,
            ray@,
        ),
{
    proof {
        reveal(moller_trumbore_v);
    }
    let v0 = triangle.positions[0];
    let v1 = triangle.positions[1];
    let v2 = triangle.positions[2];
    let e1 = v1.sub(v0);
    let e2 = v2.sub(v0);

    let h = ray.direction().cross(&e2);

    let eps = Fx::from_raw(EPSILON_RAW);
    let a = e1.dot(h);
    if eps.neg().lt(a) && a.lt(eps) {
        // ray is parallel to the triangle
        return None;
    }

    let f = a.recip();

    let s = ray.origin().sub(v0);
    let u = f.mul(s.dot(h));
    if u.lt(Fx::zero()) || Fx::one().lt(u) {
        return None;
    }

    let q = s.cross(&e1);
    let v = f.mul(ray.direction().dot(q));
    if v.lt(Fx::zero()) || Fx::one().lt(u.add(v)) {
        return None;
    }

    let t = f.mul(e2.dot(q));
    if eps.lt(t) {
        let p = v0.add_vec(e1.scale(u).add(e2.scale(v)));
        let n = e1.cross(&e2).normalized();
        Some(Intersection { p, t, n, uv: (u, v) })
    } else {
        None
    }
}

} // verus!
