//! Ray-primitive intersection.

use pbrt::fx::Fx;
use pbrt::geo::ray::Ray;
use pbrt::geo::{point3, vec3};
use pbrt::material::{Material, NullMaterial};
use pbrt::shape::sphere::Sphere;
use pbrt::shape::triangle::Triangle;
use pbrt::shape::Primitive;

fn w(i: i32) -> Fx {
    Fx::whole(i)
}

fn q(n: i32, d: i32) -> Fx {
    Fx::from_ratio(n, d)
}

fn eps() -> Fx {
    Fx::from_raw(4295)
}

fn null() -> Material {
    Material::Null(NullMaterial)
}

fn unit_sphere() -> Sphere {
    Sphere { center: point3(w(0), w(0), w(0)), radius: w(1), material: null() }
}

#[test]
fn sphere_hit_returns_nearest_t_in_window() {
    let s = unit_sphere();
    let r = Ray::new(point3(w(0), w(0), w(-3)), vec3(w(0), w(0), w(1)));
    let hit = s.hit(&r, w(0), w(100)).expect("the ray points at the sphere");
    assert_eq!(hit.t, w(2));
    assert_eq!(hit.p, point3(w(0), w(0), w(-1)));
    assert_eq!(hit.n, vec3(w(0), w(0), w(-1)));
    assert!(hit.front_face);
}

#[test]
fn sphere_hit_takes_far_root_when_inside() {
    let s = unit_sphere();
    let r = Ray::new(point3(w(0), w(0), w(0)), vec3(w(0), w(0), w(1)));
    let hit = s.hit(&r, w(0), w(100)).expect("a ray from the center leaves the sphere");
    assert_eq!(hit.t, w(1));
    // struck from inside: the stored normal is flipped against the ray
    assert_eq!(hit.n, vec3(w(0), w(0), w(-1)));
    assert!(!hit.front_face);
}

#[test]
fn sphere_miss() {
    let s = unit_sphere();
    let r = Ray::new(point3(w(0), w(2), w(-3)), vec3(w(0), w(0), w(1)));
    assert!(s.hit(&r, w(0), w(100)).is_none());
}

#[test]
fn sphere_hit_respects_window() {
    let s = unit_sphere();
    let r = Ray::new(point3(w(0), w(0), w(-3)), vec3(w(0), w(0), w(1)));
    // both roots (2 and 4) lie outside (0, 2), so nothing is returned
    assert!(s.hit(&r, w(0), w(2)).is_none());
    // the near root 2 is excluded, so the far root 4 is found
    let far = s.hit(&r, q(5, 2), w(100)).expect("the far root is in the window");
    assert_eq!(far.t, w(4));
}

#[test]
fn hit_normal_faces_the_ray() {
    let s = unit_sphere();
    let r = Ray::new(point3(w(0), q(1, 2), w(-3)), vec3(w(0), w(0), w(1)));
    let hit = s.hit(&r, w(0), w(100)).expect("the ray points at the sphere");
    assert!(r.direction().dot(hit.n).lt(w(0)));
}

fn unit_triangle() -> Triangle {
    Triangle {
        positions: [point3(w(0), w(0), w(0)), point3(w(1), w(0), w(0)), point3(w(0), w(1), w(0))],
        material: null(),
    }
}

#[test]
fn triangle_ray_intersection() {
    let t = unit_triangle();

    let r = Ray::new(point3(w(0), w(0), w(1)), vec3(w(1), w(2), w(-3)));
    let i = t.intersection(&r);
    assert!(t.intersection(&r).is_some());
    let i = i.unwrap();
    assert!(i.p.sub(point3(q(1, 3), q(2, 3), w(0))).len().lt(eps()));
    assert_eq!(i.n, vec3(w(0), w(0), w(1)));
    assert!(r.direction().dot(i.n).lt(w(0)));

    let r = Ray::new(point3(w(0), w(0), w(1)), vec3(w(1), w(1), w(3)));
    assert!(t.intersection(&r).is_none());

    let r = Ray::new(point3(w(0), w(0), w(1)), vec3(w(1), w(1), w(0)));
    assert!(t.intersection(&r).is_none());

    let r = Ray::new(point3(w(0), w(0), w(1)), vec3(w(1), w(1), w(-1)));
    assert!(t.intersection(&r).is_none());
}

#[test]
fn triangle_hit_reorients_and_windows() {
    let t = unit_triangle();
    let r = Ray::new(point3(w(0), w(0), w(1)), vec3(w(1), w(2), w(-3)));
    let hit = t.hit(&r, w(0), w(100)).expect("the ray crosses the triangle");
    assert_eq!(hit.n, vec3(w(0), w(0), w(1)));
    assert!(r.direction().dot(hit.n).lt(w(0)));
    assert!(t.hit(&r, w(0), q(1, 4)).is_none());
}

#[test]
fn primitive_dispatch_matches_shapes() {
    let r = Ray::new(point3(w(0), w(0), w(-3)), vec3(w(0), w(0), w(1)));
    let ps = Primitive::Sphere(unit_sphere());
    let hit = ps.hit(&r, w(0), w(100)).expect("the sphere is hit through the wrapper");
    assert_eq!(hit.t, w(2));

    let rt = Ray::new(point3(w(0), w(0), w(1)), vec3(w(1), w(2), w(-3)));
    let pt = Primitive::Triangle(unit_triangle());
    assert!(pt.hit(&rt, w(0), w(100)).is_some());
}
