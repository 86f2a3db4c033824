//! The null material, useful for replacing missing materials and for tests.

use crate::geo::ray::Ray;
use crate::geo::vec3::Vec3;
use crate::hit::HitStruct;
use crate::rng::Rng;
use vstd::prelude::*;

verus! {

/// A material that absorbs everything.
#[derive(Clone, Copy, Debug, PartialEq, Eq, Structural)]
pub struct NullMaterial;

impl NullMaterial {
    /// Never scatters; the attenuation argument is left untouched.
    pub fn scatter(&self, _ray: &Ray, _hit: &HitStruct, attenuation: &mut Vec3, _rng: &mut Rng) -> (r: Option<
        Ray,
    >)
        ensures
            r is None,
            *final(attenuation) == *old(attenuation),
            *final(_rng) == *old(_rng),
    {
        None
    }
}

} // verus!
