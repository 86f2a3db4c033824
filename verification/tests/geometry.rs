//! Vector, point, ray and bounding-box arithmetic.

use pbrt::fx::{Fx, FX_MAX_RAW, SCALE};
use pbrt::geo::bounds2::Bounds2;
use pbrt::geo::bounds3::Bounds3;
use pbrt::geo::point2::Point2;
use pbrt::geo::point3::Point3;
use pbrt::geo::ray::Ray;
use pbrt::geo::vec2::{Dim, Vec2};
use pbrt::geo::vec3::Vec3;
use pbrt::geo::{lerp, point3, vec3};

fn w(i: i32) -> Fx {
    Fx::whole(i)
}

fn q(n: i32, d: i32) -> Fx {
    Fx::from_ratio(n, d)
}

#[test]
fn test_cross() {
    let u = Vec3::new(w(1), w(0), w(0));
    let v = Vec3::new(w(0), w(1), w(0));
    let x = Vec3::new(w(0), w(0), w(1));

    assert_eq!(u.cross(&v), x);
    assert_eq!(v.cross(&u), x.neg());
    assert_eq!(v.cross(&x), u);
    assert_eq!(x.cross(&v), u.neg());
    assert_eq!(x.cross(&u), v);
    assert_eq!(u.cross(&x), v.neg());
}

#[test]
fn ray_parameterization_example() {
    let r = Ray::new(point3(w(0), w(0), w(0)), vec3(w(1), w(0), w(0)));
    assert_eq!(r.eval(w(5)), point3(w(5), w(0), w(0)));
}

#[test]
fn fx_arithmetic_is_exact_on_small_values() {
    assert_eq!(w(2).add(w(3)), w(5));
    assert_eq!(w(2).sub(w(3)), w(-1));
    assert_eq!(w(6).mul(q(1, 2)), w(3));
    assert_eq!(w(7).div(w(2)), q(7, 2));
    assert_eq!(w(-9).abs(), w(9));
    assert_eq!(w(9).sqrt(), w(3));
    assert_eq!(q(1, 4).sqrt(), q(1, 2));
    assert_eq!(w(4).recip(), q(1, 4));
    assert_eq!(w(3).min(w(5)), w(3));
    assert_eq!(w(3).max(w(5)), w(5));
    assert!(w(3).lt(w(5)));
    assert!(!w(5).lt(w(3)));
}

#[test]
fn fx_division_by_zero_saturates() {
    assert_eq!(w(5).div(w(0)).raw, FX_MAX_RAW);
    assert_eq!(w(-5).div(w(0)).raw, -FX_MAX_RAW);
    assert_eq!(w(0).div(w(0)).raw, 0);
}

#[test]
fn fx_sqrt_of_nonpositive_is_zero() {
    assert_eq!(w(-4).sqrt(), w(0));
    assert_eq!(w(0).sqrt(), w(0));
}

#[test]
fn vec3_dot_and_lengths() {
    let u = vec3(w(1), w(2), w(3));
    let v = vec3(w(5), w(-1), w(2));
    assert_eq!(u.dot(v), w(9));
    assert_eq!(vec3(w(3), w(4), w(0)).len_squared(), w(25));
    assert_eq!(vec3(w(3), w(4), w(0)).len(), w(5));
    let n = vec3(w(3), w(4), w(0)).normalized();
    assert!(n.x.sub(q(3, 5)).abs().raw < 10);
    assert!(n.y.sub(q(4, 5)).abs().raw < 10);
    assert!(!u.has_nans());
}

#[test]
fn vec3_lerp_endpoints() {
    let a = vec3(w(1), w(0), w(2));
    let b = vec3(w(3), w(0), w(-4));
    assert_eq!(pbrt::geo::vec3::lerp(a, b, w(0)), a);
    assert_eq!(pbrt::geo::vec3::lerp(a, b, w(1)), b);
}

#[test]
fn scalar_lerp_interpolates() {
    assert_eq!(lerp(q(1, 4), w(1), w(5)), w(2));
    assert_eq!(lerp(w(0), w(1), w(5)), w(1));
    assert_eq!(lerp(w(1), w(1), w(5)), w(5));
}

#[test]
fn point3_algebra_keeps_the_affine_distinction() {
    let p1 = point3(w(1), w(2), w(-3));
    let p2 = point3(w(-1), w(3), w(2));
    assert_eq!(p1.min(p2), point3(w(-1), w(2), w(-3)));
    assert_eq!(p1.max(p2), point3(w(1), w(3), w(2)));
    assert_eq!(p1.sub(p2), vec3(w(2), w(-1), w(-5)));
    assert_eq!(p2.add_vec(vec3(w(2), w(-1), w(-5))), p1);
    assert_eq!(Point3::origin(), point3(w(0), w(0), w(0)));
    assert_eq!(
        pbrt::geo::point3::lerp(q(1, 2), point3(w(1), w(0), w(2)), point3(w(3), w(0), w(-4))),
        point3(w(2), w(0), w(-1))
    );
}

#[test]
fn vec2_operations() {
    let a = Vec2::new(w(1), w(3));
    let b = Vec2::new(w(2), w(-1));
    assert_eq!(a.dot(b), w(-1));
    assert_eq!(a.abs_dot(b), w(1));
    assert_eq!(Vec2::new(w(-3), w(4)).len_squared(), w(25));
    assert_eq!(Vec2::new(w(-3), w(4)).len(), w(5));
    let n = Vec2::new(w(-3), w(4)).normalized();
    assert!(n.x.sub(q(-3, 5)).abs().raw < 10);
    assert!(n.y.sub(q(4, 5)).abs().raw < 10);
    assert_eq!(a.min_component(), w(1));
    assert_eq!(a.max_component(), w(3));
    assert_eq!(a.permute(Dim::Y, Dim::X), Vec2::new(w(3), w(1)));
    // reflecting (1, -1) off the horizontal plane flips the vertical part
    let r = Vec2::new(w(1), w(-1)).reflect(Vec2::new(w(0), w(1)));
    assert_eq!(r, Vec2::new(w(1), w(1)));
}

#[test]
fn point2_operations() {
    let p1 = Point2::new(w(1), w(5));
    let p2 = Point2::new(w(3), w(2));
    assert_eq!(p1.min(p2), Point2::new(w(1), w(2)));
    assert_eq!(p1.max(p2), Point2::new(w(3), w(5)));
    assert_eq!(Point2::new(w(-2), w(7)).abs(), Point2::new(w(2), w(7)));
}

#[test]
fn bounds2_from_corners_sorts() {
    let b = Bounds2::from_corners(Point2::new(w(1), w(0)), Point2::new(w(0), w(2)));
    assert_eq!(b.min, Point2::new(w(0), w(0)));
    assert_eq!(b.max, Point2::new(w(1), w(2)));
    let p = Point2::new(w(4), w(-1));
    let bp = Bounds2::from_point(p);
    assert_eq!(bp.min, p);
    assert_eq!(bp.max, p);
}

#[test]
fn bounds3_union_area_diagonal_centroid() {
    let b = Bounds3::from_corners(point3(w(1), w(-1), w(3)), point3(w(2), w(1), w(0)));
    assert_eq!(b.diagonal(), vec3(w(1), w(2), w(3)));
    assert_eq!(b.area(), w(22));
    assert_eq!(b.centroid(), point3(q(3, 2), w(0), q(3, 2)));

    let b1 = Bounds3::from_point(point3(w(-1), w(2), w(3)));
    let b2 = Bounds3::from_point(point3(w(2), w(-4), w(2)));
    let u = Bounds3::union(&b1, &b2);
    assert_eq!(u.min, point3(w(-1), w(-4), w(2)));
    assert_eq!(u.max, point3(w(2), w(2), w(3)));
}

#[test]
fn bounds3_ray_hit() {
    let b = Bounds3::from_corners(point3(w(-1), w(-1), w(-1)), point3(w(1), w(1), w(1)));
    let through = Ray::new(point3(w(0), w(0), w(-3)), vec3(w(0), w(0), w(1)));
    assert!(b.hit(&through, (w(0), w(100))));
    let beside = Ray::new(point3(w(0), w(3), w(-3)), vec3(w(0), w(0), w(1)));
    assert!(!b.hit(&beside, (w(0), w(100))));
}

#[test]
fn mat4_identity_has_ones_on_the_diagonal() {
    let m = pbrt::geo::mat4::Mat4::identity();
    for i in 0..4 {
        for j in 0..4 {
            let expected = if i == j { w(1) } else { w(0) };
            assert_eq!(m.at(i, j), expected);
        }
    }
}

#[test]
fn fx_scale_constant_is_one() {
    assert_eq!(Fx::one().raw, SCALE);
    assert_eq!(Fx::from_raw(SCALE), Fx::one());
}
