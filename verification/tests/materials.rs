//! Material scattering, reflection and refraction.

use pbrt::fx::Fx;
use pbrt::geo::ray::Ray;
use pbrt::geo::vec3::Vec3;
use pbrt::geo::{point3, vec3};
use pbrt::hit::HitStruct;
use pbrt::material::dielectric::{refract, schlick, Dielectric};
use pbrt::material::lambertian::Lambertian;
use pbrt::material::metal::Metal;
use pbrt::material::{reflect, Material, NullMaterial};
use pbrt::rng::Rng;

fn w(i: i32) -> Fx {
    Fx::whole(i)
}

fn q(n: i32, d: i32) -> Fx {
    Fx::from_ratio(n, d)
}

fn eps() -> Fx {
    Fx::from_raw(4295)
}

fn close(a: Fx, b: Fx) -> bool {
    a.sub(b).abs().lt(eps())
}

fn null() -> Material {
    Material::Null(NullMaterial)
}

/// A head-on hit of the plane `z == 0` from above.
fn flat_hit(material: Material) -> (Ray, HitStruct) {
    let ray = Ray::new(point3(w(0), w(0), w(1)), vec3(w(0), w(0), w(-1)));
    let hit = HitStruct::new(w(1), point3(w(0), w(0), w(0)), &ray, vec3(w(0), w(0), w(1)), material);
    (ray, hit)
}

#[test]
fn lambertian_always_scatters_with_albedo() {
    let albedo = vec3(q(9, 10), q(1, 10), q(1, 10));
    let m = Lambertian { albedo };
    let (ray, hit) = flat_hit(Material::Lambertian(m));
    let mut attenuation = vec3(w(0), w(0), w(0));
    let mut rng = Rng::new(7);
    let scattered = m.scatter(&ray, &hit, &mut attenuation, &mut rng);
    assert!(scattered.is_some());
    assert_eq!(attenuation, albedo);
    assert_eq!(scattered.unwrap().origin(), hit.p);
}

#[test]
fn metal_reflects_and_absorbs_below_horizon() {
    let albedo = vec3(q(8, 10), q(6, 10), q(2, 10));
    let m = Metal { albedo, roughness: w(0) };

    // a ray down onto the plane reflects up
    let (ray, hit) = flat_hit(Material::Metal(m));
    let mut attenuation = vec3(w(0), w(0), w(0));
    let mut rng = Rng::new(7);
    let scattered = m.scatter(&ray, &hit, &mut attenuation, &mut rng);
    assert!(scattered.is_some());
    assert_eq!(attenuation, albedo);
    let d = scattered.unwrap().direction();
    assert!(close(d.x, w(0)) && close(d.y, w(0)) && close(d.z, w(1)));

    // a hit record whose normal points along the ray absorbs: the mirrored
    // direction would point into the surface
    let ray2 = Ray::new(point3(w(0), w(0), w(1)), vec3(w(0), w(0), w(-1)));
    let below = HitStruct {
        t: w(1),
        p: point3(w(0), w(0), w(0)),
        n: vec3(w(0), w(0), w(-1)),
        front_face: false,
        material: Material::Metal(m),
    };
    let mut attenuation2 = vec3(w(0), w(0), w(0));
    let scattered2 = m.scatter(&ray2, &below, &mut attenuation2, &mut rng);
    assert!(scattered2.is_none());
    assert_eq!(attenuation2, albedo);
}

#[test]
fn null_material_absorbs_everything() {
    let (ray, hit) = flat_hit(null());
    let mut attenuation = vec3(q(1, 2), w(0), w(0));
    let mut rng = Rng::new(7);
    assert!(NullMaterial.scatter(&ray, &hit, &mut attenuation, &mut rng).is_none());
    assert_eq!(attenuation, vec3(q(1, 2), w(0), w(0)));
}

#[test]
fn reflect_mirrors_about_the_normal() {
    let r = reflect(vec3(w(1), w(-1), w(0)), vec3(w(0), w(1), w(0)));
    assert_eq!(r, vec3(w(1), w(1), w(0)));
}

#[test]
fn schlick_endpoints() {
    let n = q(3, 2);
    let r0 = w(1).sub(n).div(w(1).add(n));
    let r0sq = r0.mul(r0);
    assert_eq!(schlick(w(1), n), r0sq);
    assert_eq!(schlick(w(0), n), w(1));
    // (1 - 1.5) / (1 + 1.5) squared is 0.04
    assert!(close(r0sq, q(4, 100)));
}

#[test]
fn test_refract_front() {
    let eta = w(1);
    let eta_prime = w(2);

    let u = vec3(w(1), w(2), w(-1)).normalized();
    let n = vec3(w(0), w(0), w(1));

    let x = refract(u, n, eta.div(eta_prime));

    let cos_theta = u.dot(n).neg();
    let cos_theta_prime = x.dot(n).neg();

    assert!(snells_law((eta, cos_theta), (eta_prime, cos_theta_prime)), "Snell's law");
    assert!(x.z.lt(w(0)), "w.z = {}", x.z.raw);

    // Refract out
    let n = vec3(w(0), w(0), w(1));

    let x1 = refract(x, n, eta_prime.div(eta));

    let cos_theta = x.dot(n).neg();
    let cos_theta_prime = x1.dot(n).neg();

    assert!(snells_law((eta_prime, cos_theta), (eta, cos_theta_prime)), "Snell's law");
    assert!(u.dot(x1).sub(w(1)).abs().lt(eps()));
}

fn snells_law(first: (Fx, Fx), second: (Fx, Fx)) -> bool {
    let (eta, cos_theta) = first;
    let (eta_prime, cos_theta_prime) = second;
    let sin_theta = pyth(cos_theta);
    let sin_theta_prime = pyth(cos_theta_prime);

    eta.mul(sin_theta).sub(eta_prime.mul(sin_theta_prime)).abs().lt(eps())
}

fn pyth(x: Fx) -> Fx {
    Fx::one().sub(x.mul(x)).sqrt()
}

#[test]
fn dielectric_refracts_back_to_the_original_direction() {
    let u = vec3(w(1), w(2), w(-1)).normalized();
    let n = vec3(w(0), w(0), w(1));
    let down = refract(u, n, w(1).div(w(2)));
    let back = refract(down, n, w(2).div(w(1)));
    let tolerance = Fx::from_raw(42950);  // 1e-5
    assert!(back.x.sub(u.x).abs().lt(tolerance));
    assert!(back.y.sub(u.y).abs().lt(tolerance));
    assert!(back.z.sub(u.z).abs().lt(tolerance));
}

#[test]
fn dielectric_always_scatters() {
    let m = Dielectric { refraction_index: q(3, 2) };
    let (ray, hit) = flat_hit(Material::Dielectric(m));
    let mut attenuation = vec3(w(0), w(0), w(0));
    let mut rng = Rng::new(7);
    let scattered = m.scatter(&ray, &hit, &mut attenuation, &mut rng);
    assert!(scattered.is_some());
    assert_eq!(attenuation, vec3(w(1), w(1), w(1)));
}

#[test]
fn material_dispatch_matches_variants() {
    let lam = Lambertian { albedo: vec3(q(1, 2), q(1, 2), q(1, 2)) };
    let m = Material::Lambertian(lam);
    let (ray, hit) = flat_hit(m);
    let mut a1: Vec3 = vec3(w(0), w(0), w(0));
    let mut a2: Vec3 = vec3(w(0), w(0), w(0));
    let mut rng1 = Rng::new(42);
    let mut rng2 = Rng::new(42);
    let s1 = m.scatter(&ray, &hit, &mut a1, &mut rng1);
    let s2 = lam.scatter(&ray, &hit, &mut a2, &mut rng2);
    assert_eq!(a1, a2);
    assert_eq!(s1.unwrap().direction(), s2.unwrap().direction());
}
