//! The camera, the integrator, the driver and tone mapping.

use pbrt::camera::{Camera, CameraSpec};
use pbrt::color::linear::LinearColor;
use pbrt::fx::Fx;
use pbrt::geo::ray::Ray;
use pbrt::geo::{point3, vec3};
use pbrt::material::{Dielectric, Lambertian, Material, Metal};
use pbrt::render::{background, parse_usize, ray_color, render, render_pixel, tonemap,
    RenderOptions};
use pbrt::rng::Rng;
use pbrt::scene::Scene;
use pbrt::shape::sphere::Sphere;
use pbrt::shape::Primitive;

fn w(i: i32) -> Fx {
    Fx::whole(i)
}

fn q(n: i32, d: i32) -> Fx {
    Fx::from_ratio(n, d)
}

fn sky_bottom() -> LinearColor {
    LinearColor::from_channels(w(1), w(1), w(1), w(1))
}

fn sky_top() -> LinearColor {
    LinearColor::from_channels(q(1, 2), q(7, 10), w(1), w(1))
}

fn lambertian(r: Fx, g: Fx, b: Fx) -> Material {
    Material::Lambertian(Lambertian { albedo: vec3(r, g, b) })
}

fn sphere(x: Fx, y: Fx, z: Fx, radius: Fx, material: Material) -> Primitive {
    Primitive::Sphere(Sphere { center: point3(x, y, z), radius, material })
}

/// The scene of a small diffuse sphere resting on a large one.
fn two_sphere_scene() -> Scene {
    Scene {
        objects: vec![
            sphere(w(0), w(0), w(-1), q(1, 2), lambertian(q(9, 10), q(1, 10), q(1, 10))),
            sphere(w(0), q(-201, 2), w(-1), w(100), lambertian(q(1, 10), q(9, 10), q(1, 10))),
        ],
        background_bottom: sky_bottom(),
        background_top: sky_top(),
    }
}

/// The camera of the classic two-sphere framing: a square half-height of one
/// (a vertical field of view of 90 degrees) at aspect ratio two, looking down
/// the negative z axis.
fn front_camera() -> Camera {
    Camera::from_spec(CameraSpec {
        half_height: w(1),
        aspect: w(2),
        look_from: point3(w(0), w(0), w(0)),
        look_at: point3(w(0), w(0), w(-1)),
        up: vec3(w(0), w(1), w(0)),
    })
}

#[test]
fn background_lerp_palette() {
    let up = Ray::new(point3(w(0), w(0), w(0)), vec3(w(0), w(1), w(0)));
    let c = background(sky_bottom(), sky_top(), &up);
    assert_eq!(c, sky_top());

    let down = Ray::new(point3(w(0), w(0), w(0)), vec3(w(0), w(-1), w(0)));
    let c = background(sky_bottom(), sky_top(), &down);
    assert_eq!(c, sky_bottom());
}

#[test]
fn integrator_budget_exhausted_returns_zero() {
    let scene = two_sphere_scene();
    let ray = Ray::new(point3(w(0), w(0), w(0)), vec3(w(0), w(0), w(-1)));
    let mut rng = Rng::new(99);
    let c = ray_color(&scene, &ray, 0, &mut rng);
    assert_eq!(c, LinearColor::default());
}

#[test]
fn integrator_miss_returns_background() {
    let scene = two_sphere_scene();
    let ray = Ray::new(point3(w(0), w(0), w(0)), vec3(w(0), w(1), w(0)));
    let mut rng = Rng::new(99);
    let c = ray_color(&scene, &ray, 50, &mut rng);
    assert_eq!(c, sky_top());
}

#[test]
fn camera_corner_rays() {
    let cam = front_camera();
    // the lower-left viewport corner at (u, v) = (0, 0)
    let r = cam.get_ray(w(0), w(0));
    assert_eq!(r.origin(), point3(w(0), w(0), w(0)));
    assert_eq!(r.direction(), vec3(w(-2), w(-1), w(-1)));
    // the viewport center looks down the negative z axis
    let c = cam.get_ray(q(1, 2), q(1, 2));
    assert_eq!(c.direction(), vec3(w(0), w(0), w(-1)));
}

#[test]
fn tonemap_saturates_and_orders() {
    let black = LinearColor::from_channels(w(0), w(0), w(0), w(1));
    let white = LinearColor::from_channels(w(1), w(1), w(1), w(1));
    let dim = LinearColor::from_channels(q(1, 5), q(1, 5), q(1, 5), w(1));
    let mid = LinearColor::from_channels(q(1, 2), q(1, 2), q(1, 2), w(1));
    let over = LinearColor::from_channels(w(3), w(2), w(4), q(1, 2));

    let pixels = tonemap(&vec![black, white, dim, mid, over], (5, 1));
    assert_eq!(pixels.len(), 5);
    assert_eq!((pixels[0].r, pixels[0].g, pixels[0].b, pixels[0].a), (0, 0, 0, 255));
    assert_eq!((pixels[1].r, pixels[1].g, pixels[1].b, pixels[1].a), (255, 255, 255, 255));
    // the tone curve is non-decreasing channelwise
    assert!(pixels[2].r <= pixels[3].r);
    assert!(pixels[3].r <= pixels[1].r);
    // gamma encoding brightens dark channels: 0.2 maps well above 0.2 * 255
    assert_eq!(pixels[2].r, 122);
    assert_eq!(pixels[3].r, 186);
    // and is not quantized before encoding: channels just below 1/256 and
    // near 0.003 keep their own bytes instead of crushing to black
    let faint = LinearColor::from_channels(
        Fx::from_raw(16777215),
        Fx::from_raw(12884901),
        w(0),
        w(1),
    );
    let shadow = tonemap(&vec![faint], (1, 1));
    assert_eq!(shadow[0].r, 20);
    assert_eq!(shadow[0].g, 18);
    // channels above one saturate, and alpha stays linear
    assert_eq!((pixels[4].r, pixels[4].g, pixels[4].b, pixels[4].a), (255, 255, 255, 127));
}

#[test]
fn tonemap_pads_missing_pixels() {
    let one = LinearColor::from_channels(w(1), w(1), w(1), w(1));
    let pixels = tonemap(&vec![one], (2, 2));
    assert_eq!(pixels.len(), 4);
    assert_eq!((pixels[1].r, pixels[1].g, pixels[1].b, pixels[1].a), (0, 0, 0, 0));
}

#[test]
fn gamma_decode_inverts_encode_on_the_ends() {
    let white = LinearColor::from_rgba(pbrt::color::rgba::Rgba::from_channels(255, 255, 255, 255));
    assert_eq!(white.r, w(1));
    assert_eq!(white.a, w(1));
    let black = LinearColor::from_rgba(pbrt::color::rgba::Rgba::from_channels(0, 0, 0, 0));
    assert_eq!(black.r, w(0));
    assert_eq!(black.a, w(0));
    // mid gray decodes at full raw precision: (128/255)^2.2 to the step
    let mid = LinearColor::from_rgba(pbrt::color::rgba::Rgba::from_channels(128, 128, 128, 255));
    assert_eq!(mid.r, Fx::from_raw(942830009));
}

#[test]
fn color_arithmetic() {
    let c = LinearColor::from_channels(q(1, 2), q(1, 4), w(1), w(1));
    let d = c.mul(q(1, 2));
    assert_eq!(d, LinearColor::from_channels(q(1, 4), q(1, 8), q(1, 2), w(1)));
    let s = c.add(d);
    assert_eq!(s, LinearColor::from_channels(q(3, 4), q(3, 8), q(3, 2), w(1)));
    // the three luminance weights sum to exactly one
    let lum = LinearColor::from_channels(w(1), w(1), w(1), w(1)).luminance();
    assert_eq!(lum, w(1));
    let r = LinearColor::from_channels(w(1), w(1), w(1), w(1)).reinhard();
    assert_eq!(r.r, q(1, 2));
}

#[test]
fn render_determinism_single_threaded_seeded() {
    let scene = two_sphere_scene();
    let cam = front_camera();
    let opt = RenderOptions { nx: 8, ny: 4, ns: 2, n_max_bounce: 8 };
    let a = render(&scene, &cam, opt, 1234567);
    let b = render(&scene, &cam, opt, 1234567);
    assert_eq!(a, b);
    assert_eq!(a.len(), 32);
}

#[test]
fn render_pixels_agree_with_the_sequential_render() {
    let scene = two_sphere_scene();
    let cam = front_camera();
    let opt = RenderOptions { nx: 4, ny: 2, ns: 1, n_max_bounce: 4 };
    let image = render(&scene, &cam, opt, 42);
    // the buffer is top-to-bottom: row 0 is scene row ny - 1
    let direct = render_pixel(&scene, &cam, &opt, 42, 1, 1);
    assert_eq!(image[1], direct);
}

#[test]
fn two_spheres_center_pixel_is_red() {
    let scene = two_sphere_scene();
    let cam = front_camera();
    let opt = RenderOptions { nx: 200, ny: 100, ns: 8, n_max_bounce: 50 };
    let center = render_pixel(&scene, &cam, &opt, 7, 100, 50);
    // the red diffuse sphere dominates the view center
    assert!(center.g.lt(center.r));
    assert!(center.b.lt(center.r));
    // a pixel high above shows the sky gradient: blue at least matches red
    let top = render_pixel(&scene, &cam, &opt, 7, 100, 97);
    assert!(!top.b.lt(top.r));
}

#[test]
fn metal_dielectric_mix_is_not_dark() {
    let gray = Material::Metal(Metal { albedo: vec3(q(1, 2), q(1, 2), q(1, 2)), roughness: q(1, 10) });
    let red = lambertian(q(9, 10), q(1, 10), q(1, 10));
    let gold = Material::Metal(Metal { albedo: vec3(q(8, 10), q(6, 10), q(2, 10)), roughness: q(3, 10) });
    let silver = Material::Metal(Metal { albedo: vec3(q(9, 10), q(9, 10), q(9, 10)), roughness: w(0) });
    let glass = Material::Dielectric(Dielectric { refraction_index: q(1333, 1000) });
    let scene = Scene {
        objects: vec![
            sphere(w(0), q(-201, 2), w(-1), w(100), gray),
            sphere(w(0), w(0), w(-1), q(1, 2), red),
            sphere(w(1), w(0), w(-1), q(1, 2), gold),
            sphere(w(-1), w(0), w(-1), q(1, 2), silver),
            sphere(w(0), w(1), w(-1), q(1, 2), glass),
        ],
        background_bottom: sky_bottom(),
        background_top: sky_top(),
    };
    let cam = Camera::from_spec(CameraSpec {
        // a vertical field of view of 60 degrees: tan(30 degrees)
        half_height: q(57735, 100000),
        aspect: q(16, 9),
        look_from: point3(w(1), q(3, 2), w(3)),
        look_at: point3(w(0), w(0), w(-1)),
        up: vec3(w(0), w(1), w(0)),
    });
    let opt = RenderOptions { nx: 8, ny: 4, ns: 4, n_max_bounce: 50 };
    let image = render(&scene, &cam, opt, 99);
    let mut total = Fx::zero();
    for c in image.iter() {
        total = total.add(c.luminance());
    }
    // mean pixel luminance stays above a tenth
    let mean = total.div(w(32));
    assert!(q(1, 10).lt(mean));
}

#[test]
fn options_come_from_positional_arguments() {
    let opts = RenderOptions::from_args(vec![
        "renderer".to_string(),
        "16".to_string(),
        "320".to_string(),
        "180".to_string(),
    ]);
    assert_eq!(opts.ns, 16);
    assert_eq!(opts.nx, 320);
    assert_eq!(opts.ny, 180);
    assert_eq!(opts.n_max_bounce, 50);
}

#[test]
fn options_fall_back_to_defaults() {
    let defaults = RenderOptions::from_args(vec!["renderer".to_string()]);
    assert_eq!(defaults.ns, 8);
    assert_eq!(defaults.nx, 640);
    assert_eq!(defaults.ny, 360);

    let garbled = RenderOptions::from_args(vec![
        "renderer".to_string(),
        "12x".to_string(),
        "".to_string(),
        "99999999999999999999999999".to_string(),
    ]);
    assert_eq!(garbled.ns, 8);
    assert_eq!(garbled.nx, 640);
    assert_eq!(garbled.ny, 360);
}

#[test]
fn parse_usize_accepts_only_plain_digits() {
    assert_eq!(parse_usize("0"), Some(0));
    assert_eq!(parse_usize("123"), Some(123));
    assert_eq!(parse_usize(""), None);
    assert_eq!(parse_usize("12a"), None);
    assert_eq!(parse_usize("-4"), None);
    assert_eq!(parse_usize(" 4"), None);
}

#[test]
fn rng_streams_are_deterministic_and_unit_draws_bounded() {
    let mut a = Rng::new(5);
    let mut b = Rng::new(5);
    for _ in 0..16 {
        assert_eq!(a.next_u64(), b.next_u64());
    }
    let mut g = Rng::new(11);
    for _ in 0..64 {
        let u = g.next_unit();
        assert!(!u.lt(w(0)));
        assert!(u.lt(w(1)));
    }
    let mut s = Rng::new(17);
    for _ in 0..32 {
        let v = pbrt::rng::random_in_unit_sphere(&mut s);
        assert!(!w(1).lt(v.len_squared()));
    }
}
