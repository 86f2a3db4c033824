//! Vector, point, ray and bounding-box math.

pub mod bounds2;
pub mod bounds3;
pub mod mat4;
pub mod point2;
pub mod point3;
pub mod ray;
pub mod vec2;
pub mod vec3;

pub use bounds2::Bounds2;
pub use bounds3::Bounds3;
pub use mat4::Mat4;
pub use point2::Point2;
pub use point3::Point3;
pub use ray::Ray;
pub use vec2::{Dim, Vec2};
pub use vec3::Vec3;

use crate::fx::{fx_sub_v, fx_add_v, fx_mul_v, Fx, SCALE};
use crate::geo::vec3::V3;
use vstd::prelude::*;

verus! {

/// Creates a new 3D vector.
pub fn vec3(x: Fx, y: Fx, z: Fx) -> (r: Vec3)
    ensures
        r@ == (V3 { x: x.raw as int, y: y.raw as int, z: z.raw as int }),
{
    Vec3::new(x, y, z)
}

/// Creates a new 3D point.
pub fn point3(x: Fx, y: Fx, z: Fx) -> (r: Point3)
    ensures
        r@ == (V3 { x: x.raw as int, y: y.raw as int, z: z.raw as int }),
{
    Point3::new(x, y, z)
}

/// `(1 - t) * v1 + t * v2` on scalars.
pub open spec fn lerp_v(t: int, v1: int, v2: int) -> int {
    fx_add_v(fx_mul_v(fx_sub_v(SCALE as int, t), v1), fx_mul_v(t, v2))
}

/// Linearly interpolates between two scalar values.
pub fn lerp(t: Fx, v1: Fx, v2: Fx) -> (r: Fx)
    ensures
        r.raw as int == lerp_v(t.raw as int, v1.raw as int, v2.raw as int),
{
    Fx::one().sub(t).mul(v1).add(t.mul(v2))
}

} // verus!
