//! The metal (specular) material.

use crate::fx::Fx;
use crate::geo::ray::{Ray, RayV};
use crate::geo::vec3::{v3_add, v3_dot, v3_normalized, v3_scale, Vec3, V3};
use crate::hit::{HitStruct, HitV};
use crate::material::{opt_ray_v, reflect, reflect_v};
use crate::rng::{random_in_unit_sphere, unit_sphere_sample, Rng, SPHERE_SAMPLE_TRIES};
use vstd::prelude::*;

verus! {

/// A specular surface of the given albedo and roughness in `[0, 1]`.
#[derive(Clone, Copy, Debug, PartialEq, Eq, Structural)]
pub struct Metal {
    pub albedo: Vec3,
    pub roughness: Fx,
}

/// What a metal scatter returns on draw state `s`: the unit incoming
/// direction is mirrored about the normal and perturbed by roughness; the
/// surface scatters only while the mirrored direction leaves the surface
/// (a positive dot with the normal), and absorbs otherwise. The attenuation
/// is the albedo either way.
#[verifier::opaque]
pub open spec fn metal_scatter_v(albedo: V3, roughness: int, ray: RayV, hit: HitV, s: u64) -> (
    Option<RayV>,
    V3,
    u64,
) {
    let reflected = reflect_v(v3_normalized(ray.d), hit.n);
    let sample = unit_sphere_sample(s, SPHERE_SAMPLE_TRIES as nat);
    let scattered = RayV { o: hit.p, d: v3_add(reflected, v3_scale(sample.0, roughness)) };
    (
        if v3_dot(reflected, hit.n) > 0 {
            Option::Some(scattered)
        } else {
            Option::None
        },
        albedo,
        sample.1,
    )
}

impl Metal {
    /// Scatters by perturbed mirror reflection; absorbs a reflection that
    /// would point into the surface.
    pub fn scatter(&self, ray: &Ray, hit: &HitStruct, attenuation: &mut Vec3, rng: &mut Rng) -> (r:
        Option<Ray>)
        ensures
            (opt_ray_v(r), final(attenuation)@, final(rng).state) == metal_scatter_v(
                self.albedo@,
                self.roughness.raw as int,
                ray@,
                hit@,
                old(rng).state,
            ),
            final(attenuation)@ == self.albedo@,
            r is Some <==> v3_dot(reflect_v(v3_normalized(ray@.d), hit@.n), hit@.n) > 0,
    {
        proof {
            reveal(metal_scatter_v);
        }
        let reflected = reflect(ray.direction().normalized(), hit.n);
        let scattered = Ray::new(hit.p, reflected.add(random_in_unit_sphere(rng).scale(self.roughness)));
        *attenuation = self.albedo;
        if Fx::zero().lt(reflected.dot(hit.n)) {
            Some(scattered)
        } else {
            None
        }
    }
}

} // verus!
