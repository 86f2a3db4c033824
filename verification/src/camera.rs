//! The camera: maps normalized viewport coordinates to primary rays.

use crate::fx::{fx_mul_v, Fx, SCALE};
use crate::geo::point3::Point3;
use crate::geo::ray::{Ray, RayV};
use crate::geo::vec3::{v3_add, v3_cross, v3_normalized, v3_scale, v3_sub, Vec3, V3};
use vstd::prelude::*;

verus! {

/// How a camera is configured. Verus has no trigonometry, so the vertical
/// field of view is given directly as the viewport's half height
/// `tan(vfov / 2)` at unit focal distance; the host converts from degrees.
pub struct CameraSpec {
    /// Half the viewport height at unit focal distance: the tangent of half
    /// the vertical field-of-view angle.
    pub half_height: Fx,
    /// Aspect ratio (width / height).
    pub aspect: Fx,
    /// Focal point position.
    pub look_from: Point3,
    /// Target of focus.
    pub look_at: Point3,
    /// 'Up' vector.
    pub up: Vec3,
}

/// A camera: the focal point and the cached viewport frame.
pub struct Camera {
    pub origin: Point3,
    pub lower_left_corner: Vec3,
    pub horizontal: Vec3,
    pub vertical: Vec3,
}

/// The mathematical image of a camera.
#[verifier::ext_equal]
pub ghost struct CameraV {
    pub origin: V3,
    pub lower_left_corner: V3,
    pub horizontal: V3,
    pub vertical: V3,
}

impl View for Camera {
    type V = CameraV;

    open spec fn view(&self) -> CameraV {
        CameraV {
            origin: self.origin@,
            lower_left_corner: self.lower_left_corner@,
            horizontal: self.horizontal@,
            vertical: self.vertical@,
        }
    }
}

/// The camera built from a spec: a right-handed orthonormal view basis
/// `w` (against the view), `u` (right) and `v` (up), and a viewport of half
/// width `aspect * half_height` cached as its lower-left corner and spans.
#[verifier::opaque]
pub open spec fn camera_from_spec_v(
    half_height: int,
    aspect: int,
    look_from: V3,
    look_at: V3,
    up: V3,
) -> CameraV {
    let w = v3_normalized(v3_sub(look_from, look_at));
    let u = v3_normalized(v3_cross(up, w));
    let v = v3_cross(w, u);
    let half_width = fx_mul_v(aspect, half_height);
    let from_vec = v3_sub(look_from, V3 { x: 0, y: 0, z: 0 });
    let lower_left_corner = v3_sub(
        v3_sub(v3_sub(from_vec, v3_scale(u, half_width)), v3_scale(v, half_height)),
        w,
    );
    CameraV {
        origin: look_from,
        lower_left_corner,
        horizontal: v3_scale(u, fx_mul_v(2 * SCALE as int, half_width)),
        vertical: v3_scale(v, fx_mul_v(2 * SCALE as int, half_height)),
    }
}

/// The primary ray for viewport coordinates `(s, t)` in `[0, 1]^2`: from the
/// focal point toward the sampled viewport position. The direction is not
/// normalized.
pub open spec fn camera_get_ray_v(cam: CameraV, s: int, t: int) -> RayV {
    RayV {
        o: cam.origin,
        d: v3_sub(
            v3_add(
                v3_add(cam.lower_left_corner, v3_scale(cam.horizontal, s)),
                v3_scale(cam.vertical, t),
            ),
            v3_sub(cam.origin, V3 { x: 0, y: 0, z: 0 }),
        ),
    }
}

impl Camera {
    /// Builds the camera for a configuration.
    pub fn from_spec(camera_spec: CameraSpec) -> (r: Camera)
        ensures
            r@ == camera_from_spec_v(
                camera_spec.half_height.raw as int,
                camera_spec.aspect.raw as int,
                camera_spec.look_from@,
                camera_spec.look_at@,
                camera_spec.up@,
            ),
    {
        proof {
            reveal(camera_from_spec_v);
        }
        let origin = camera_spec.look_from;

        let w = camera_spec.look_from.sub(camera_spec.look_at).normalized();
        let u = Vec3::cross(&camera_spec.up, &w).normalized();
        let v = Vec3::cross(&w, &u);

        let half_height = camera_spec.half_height;
        let half_width = camera_spec.aspect.mul(half_height);

        let lower_left_corner = origin.sub(Point3::origin()).sub(u.scale(half_width)).sub(
            v.scale(half_height),
        ).sub(w);
        let horizontal = u.scale(Fx::whole(2).mul(half_width));
        let vertical = v.scale(Fx::whole(2).mul(half_height));

        Camera { origin, lower_left_corner, horizontal, vertical }
    }

    /// The primary ray for viewport coordinates `(u, v)` in `[0, 1]^2`.
    pub fn get_ray(&self, u: Fx, v: Fx) -> (r: Ray)
        ensures
            r@ == camera_get_ray_v(self@, u.raw as int, v.raw as int),
    {
        let direction = self.lower_left_corner.add(self.horizontal.scale(u)).add(
            self.vertical.scale(v),
        ).sub(self.origin.sub(Point3::origin()));
        Ray::new(self.origin, direction)
    }
}

} // verus!
