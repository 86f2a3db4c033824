//! Materials: the scatter decision that closes the integrator's recursion.

pub mod dielectric;
pub mod lambertian;
pub mod metal;
pub mod null;

pub use dielectric::Dielectric;
pub use lambertian::Lambertian;
pub use metal::Metal;
pub use null::NullMaterial;

use crate::geo::ray::{Ray, RayV};
use crate::geo::vec3::{v3_dot, v3_scale, v3_sub, Vec3, V3};
use crate::hit::HitStruct;
use crate::rng::Rng;
use vstd::prelude::*;

verus! {

/// A surface material. The set is closed, so scattering dispatches over a
/// tagged variant.
#[derive(Clone, Copy, Debug, PartialEq, Eq, Structural)]
pub enum Material {
    Lambertian(Lambertian),
    Metal(Metal),
    Dielectric(Dielectric),
    Null(NullMaterial),
}

/// The view of a possibly-absent scattered ray.
pub open spec fn opt_ray_v(o: Option<Ray>) -> Option<RayV> {
    match o {
        Option::Some(r) => Option::Some(r@),
        Option::None => Option::None,
    }
}

/// What `Material::scatter` returns and does on a draw state `s`: the
/// scattered ray if the surface scatters, the attenuation left behind
/// (`att0` stands for the attenuation argument as handed in, which an
/// absorbing null material leaves untouched), and the next draw state.
pub open spec fn scatter_v(m: Material, ray: RayV, hit: crate::hit::HitV, att0: V3, s: u64) -> (
    Option<RayV>,
    V3,
    u64,
) {
    match m {
        Material::Lambertian(l) => lambertian::lambertian_scatter_v(l.albedo@, hit, s),
        Material::Metal(mt) => metal::metal_scatter_v(
            mt.albedo@,
            mt.roughness.raw as int,
            ray,
            hit,
            s,
        ),
        Material::Dielectric(d) => dielectric::dielectric_scatter_v(
            d.refraction_index.raw as int,
            ray,
            hit,
            s,
        ),
        Material::Null(_) => (Option::None, att0, s),
    }
}

impl Material {
    /// Decides whether and how the surface scatters an incoming ray: on
    /// scattering, writes the attenuation and returns the secondary ray;
    /// on absorption returns nothing.
    pub fn scatter(&self, ray: &Ray, hit: &HitStruct, attenuation: &mut Vec3, rng: &mut Rng) -> (r:
        Option<Ray>)
        ensures
            (opt_ray_v(r), final(attenuation)@, final(rng).state) == scatter_v(
                *self,
                ray@,
                hit@,
                old(attenuation)@,
                old(rng).state,
            ),
    {
        match self {
            Material::Lambertian(l) => l.scatter(ray, hit, attenuation, rng),
            Material::Metal(m) => m.scatter(ray, hit, attenuation, rng),
            Material::Dielectric(d) => d.scatter(ray, hit, attenuation, rng),
            Material::Null(n) => n.scatter(ray, hit, attenuation, rng),
        }
    }
}

/// `v - n * (v . n) * 2`: the mirror image of `v` about the plane with
/// normal `n`.
pub open spec fn reflect_v(v: V3, n: V3) -> V3 {
    v3_sub(v, v3_scale(v3_scale(n, v3_dot(v, n)), 2 * crate::fx::SCALE as int))
}

/// Reflects `v` about the plane with (unit) normal `n`.
pub fn reflect(v: Vec3, n: Vec3) -> (r: Vec3)
    ensures
        r@ == reflect_v(v@, n@),
{
    v.sub(n.scale(v.dot(n)).scale(crate::fx::Fx::whole(2)))
}

} // verus!
