//! Surface-ray interactions.

use crate::fx::{fx_neg_v, Fx};
use crate::geo::point3::Point3;
use crate::geo::ray::Ray;
use crate::geo::vec3::{lemma_dot_neg, v3_dot, v3_in_band, v3_neg, Vec3, V3};
use crate::material::Material;
use vstd::prelude::*;

verus! {

/// The record a successful intersection returns.
pub struct HitStruct {
    /// Time of hit.
    pub t: Fx,
    /// Point of hit.
    pub p: Point3,
    /// Normal to the surface, oriented against the incoming ray.
    pub n: Vec3,
    /// True if the incoming ray hit the front face of the surface.
    pub front_face: bool,
    /// Material of the surface.
    pub material: Material,
}

/// The mathematical image of a hit record.
#[verifier::ext_equal]
pub ghost struct HitV {
    pub t: int,
    pub p: V3,
    pub n: V3,
    pub front_face: bool,
    pub material: Material,
}

impl View for HitStruct {
    type V = HitV;

    open spec fn view(&self) -> HitV {
        HitV {
            t: self.t.raw as int,
            p: self.p@,
            n: self.n@,
            front_face: self.front_face,
            material: self.material,
        }
    }
}

/// The record built from a hit at time `t` and point `p` on a surface of
/// outward normal `outward`, struck by a ray of direction `d`: the stored
/// normal is reoriented to oppose `d`, and `front_face` records whether the
/// outer side was struck.
pub open spec fn hit_new_v(t: int, p: V3, d: V3, outward: V3, material: Material) -> HitV {
    let front_face = v3_dot(d, outward) < 0;
    HitV {
        t,
        p,
        n: if front_face {
            outward
        } else {
            v3_neg(outward)
        },
        front_face,
        material,
    }
}

/// The view of a possibly-absent hit record.
pub open spec fn opt_hit_v(o: Option<HitStruct>) -> Option<HitV> {
    match o {
        Option::Some(h) => Option::Some(h@),
        Option::None => Option::None,
    }
}

impl HitStruct {
    /// Builds a hit record, reorienting `outward_normal` against the ray.
    pub fn new(t: Fx, p: Point3, ray: &Ray, outward_normal: Vec3, material: Material) -> (r:
        HitStruct)
        ensures
            r@ == hit_new_v(t.raw as int, p@, ray@.d, outward_normal@, material),
    {
        let front_face = ray.direction().dot(outward_normal).lt(Fx::zero());
        let n = if front_face {
            outward_normal
        } else {
            outward_normal.neg()
        };
        HitStruct { t, p, n, front_face, material }
    }
}

/// Every hit record faces the ray that made it: unless the ray grazed the
/// surface exactly (a zero dot product with the outward normal), the stored
/// normal has negative dot product with the ray direction.
pub proof fn lemma_hit_record_faces_ray(t: int, p: V3, d: V3, outward: V3, material: Material)
    requires
        v3_in_band(outward),
        v3_dot(d, outward) != 0,
    ensures
        v3_dot(d, hit_new_v(t, p, d, outward, material).n) < 0,
{
    if v3_dot(d, outward) >= 0 {
        lemma_dot_neg(d, outward);
        assert(fx_neg_v(v3_dot(d, outward)) == -v3_dot(d, outward));
    }
}

} // verus!
