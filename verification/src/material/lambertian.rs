//! The Lambertian (diffuse) material.

use crate::geo::ray::{Ray, RayV};
use crate::geo::vec3::{v3_add, v3_normalized, Vec3, V3};
use crate::hit::{HitStruct, HitV};
use crate::material::opt_ray_v;
use crate::rng::{random_in_unit_sphere, unit_sphere_sample, Rng, SPHERE_SAMPLE_TRIES};
use vstd::prelude::*;

verus! {

/// A diffuse surface of the given albedo.
#[derive(Clone, Copy, Debug, PartialEq, Eq, Structural)]
pub struct Lambertian {
    pub albedo: Vec3,
}

/// What a Lambertian scatter returns on draw state `s`: it always scatters,
/// the attenuation is the albedo, and the secondary ray leaves the hit point
/// along the unit normal nudged by a random in-sphere vector.
#[verifier::opaque]
pub open spec fn lambertian_scatter_v(albedo: V3, hit: HitV, s: u64) -> (Option<RayV>, V3, u64) {
    let sample = unit_sphere_sample(s, SPHERE_SAMPLE_TRIES as nat);
    let d = v3_add(v3_normalized(hit.n), sample.0);
    (Option::Some(RayV { o: hit.p, d }), albedo, sample.1)
}

impl Lambertian {
    /// Always scatters; the attenuation is the albedo.
    pub fn scatter(&self, _ray: &Ray, hit: &HitStruct, attenuation: &mut Vec3, rng: &mut Rng) -> (r: Option<
        Ray,
    >)
        ensures
            (opt_ray_v(r), final(attenuation)@, final(rng).state) == lambertian_scatter_v(
                self.albedo@,
                hit@,
                old(rng).state,
            ),
            r is Some,
            final(attenuation)@ == self.albedo@,
    {
        proof {
            reveal(lambertian_scatter_v);
        }
        *attenuation = self.albedo;

        let n = hit.n.normalized();
        let d = n.add(random_in_unit_sphere(rng));
        Some(Ray::new(hit.p, d))
    }
}

} // verus!
