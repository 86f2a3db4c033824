//! The sampler and driver: per-pixel stratified-random sampling, the
//! recursive integrator, and tone mapping to 8-bit pixels.

use crate::camera::{camera_get_ray_v, Camera, CameraV};
use crate::color::linear::{alpha_byte_v, c4_add, c4_default, c4_scale, gamma_byte_v, C4,
    LinearColor};
use crate::color::rgba::Rgba;
use crate::fx::{fx_add_v, fx_div_v, fx_mul_v, fx_whole_v, Fx, FX_MAX_RAW, SCALE};
use crate::geo::ray::{Ray, RayV};
use crate::geo::vec3::V3;
use crate::geo::{lerp, lerp_v, vec3};
use crate::material::scatter_v;
use crate::rng::{rng_key, rng_unit, sm_bump, Rng};
use crate::scene::{scene_hit_v, Scene};
use crate::shape::Primitive;
use vstd::prelude::*;
use vstd::string::StringSliceAdditionalSpecFns;

verus! {

/// How much work a render does: image size in pixels, samples per pixel,
/// and the recursion depth cap of the integrator.
#[derive(Clone, Copy, Debug, PartialEq, Eq, Structural)]
pub struct RenderOptions {
    pub nx: usize,
    pub ny: usize,
    pub ns: usize,
    pub n_max_bounce: usize,
}

/// Whether the bytes are one or more ASCII decimal digits.
pub open spec fn is_digits(s: Seq<u8>) -> bool {
    s.len() > 0 && forall|k: int| 0 <= k < s.len() ==> 48 <= #[trigger] s[k] <= 57
}

/// The number the digit bytes denote.
pub open spec fn digits_value(s: Seq<u8>) -> int
    decreases s.len(),
{
    if s.len() == 0 {
        0
    } else {
        digits_value(s.drop_last()) * 10 + (s.last() - 48)
    }
}

/// What parsing bytes as a size gives: the denoted number for one or more
/// decimal digits whose value fits the machine, nothing otherwise.
pub open spec fn parse_usize_v(s: Seq<u8>) -> Option<int> {
    if is_digits(s) && digits_value(s) <= usize::MAX {
        Option::Some(digits_value(s))
    } else {
        Option::None
    }
}

/// The size an optional argument contributes: its parsed value where it is
/// present and parses, the default otherwise.
pub open spec fn arg_or_v(args: Seq<String>, idx: int, default: int) -> int {
    if 0 <= idx < args.len() {
        match parse_usize_v(vstd::utf8::encode_utf8(args[idx]@)) {
            Option::Some(v) => v,
            Option::None => default,
        }
    } else {
        default
    }
}

/// The value of a digit string only grows as digits are appended.
proof fn lemma_digits_value_extend(s: Seq<u8>, i: int)
    requires
        0 <= i <= s.len(),
        forall|k: int| 0 <= k < s.len() ==> 48 <= #[trigger] s[k] <= 57,
    ensures
        0 <= digits_value(s.subrange(0, i)) <= digits_value(s),
    decreases s.len() - i,
{
    if i == s.len() {
        assert(s.subrange(0, i) =~= s);
        lemma_digits_value_nonneg(s);
    } else {
        lemma_digits_value_extend(s, i + 1);
        let a = s.subrange(0, i);
        let b = s.subrange(0, i + 1);
        assert(b.drop_last() =~= a);
        lemma_digits_value_nonneg(a);
    }
}

/// A digit string denotes a nonnegative number.
proof fn lemma_digits_value_nonneg(s: Seq<u8>)
    requires
        forall|k: int| 0 <= k < s.len() ==> 48 <= #[trigger] s[k] <= 57,
    ensures
        digits_value(s) >= 0,
    decreases s.len(),
{
    if s.len() > 0 {
        lemma_digits_value_nonneg(s.drop_last());
    }
}

/// Parses one or more ASCII decimal digits into a size; anything else, and
/// any value over the machine's limit, is rejected.
pub fn parse_usize(s: &str) -> (r: Option<usize>)
    ensures
        (match r {
            Option::Some(x) => Option::Some(x as int),
            Option::None => Option::<int>::None,
        }) == parse_usize_v(s.spec_bytes()),
{
    let bytes = s.as_bytes();
    let n = bytes.len();
    if n == 0 {
        return None;
    }
    let mut acc: usize = 0;
    let mut i: usize = 0;
    while i < n
        invariant
            0 < n == bytes@.len(),
            bytes@ == s.spec_bytes(),
            i <= n,
            forall|k: int| 0 <= k < i ==> 48 <= #[trigger] bytes@[k] <= 57,
            acc as int == digits_value(bytes@.subrange(0, i as int)),
        decreases n - i,
    {
        let b = bytes[i];
        if b < 48 || b > 57 {
            return None;
        }
        let d = (b - 48) as usize;
        let ghost pre = bytes@.subrange(0, i as int);
        let ghost cur = bytes@.subrange(0, i as int + 1);
        proof {
            assert(cur.drop_last() =~= pre);
        }
        let step = match acc.checked_mul(10) {
            Some(m) => m.checked_add(d),
            None => None,
        };
        match step {
            Some(next) => {
                acc = next;
            },
            None => {
                proof {
                    if is_digits(bytes@) {
                        lemma_digits_value_extend(bytes@, i as int + 1);
                    }
                }
                return None;
            },
        }
        i = i + 1;
    }
    proof {
        assert(bytes@.subrange(0, n as int) =~= bytes@);
    }
    Some(acc)
}

impl RenderOptions {
    /// Reads `ns nx ny` from the positional arguments, falling back to the
    /// defaults for anything missing or unparseable.
    pub fn from_args(args: Vec<String>) -> (r: RenderOptions)
        ensures
            r.ns as int == arg_or_v(args@, 1, 8),
            r.nx as int == arg_or_v(args@, 2, 640),
            r.ny as int == arg_or_v(args@, 3, 360),
            r.n_max_bounce == 50,
    {
        let default = RenderOptions::default();

        RenderOptions {
            ns: arg_parse(&args, 1, default.ns),
            nx: arg_parse(&args, 2, default.nx),
            ny: arg_parse(&args, 3, default.ny),
            n_max_bounce: default.n_max_bounce,
        }
    }
}

/// Parses one positional argument, falling back to a default.
fn arg_parse(args: &Vec<String>, idx: usize, default: usize) -> (r: usize)
    ensures
        r as int == arg_or_v(args@, idx as int, default as int),
{
    if idx < args.len() {
        match parse_usize(args[idx].as_str()) {
            Some(v) => v,
            None => default,
        }
    } else {
        default
    }
}

impl Default for RenderOptions {
    /// A 640 by 360 image at 8 samples per pixel, up to 50 bounces.
    fn default() -> (r: RenderOptions)
        ensures
            r.nx == 640 && r.ny == 360 && r.ns == 8 && r.n_max_bounce == 50,
    {
        RenderOptions { nx: 40 * 16, ny: 40 * 9, ns: 8, n_max_bounce: 50 }
    }
}

/// The bias above zero at which secondary rays start, to prevent
/// self-intersection speckle (shadow acne): about 1e-4.
pub const T_MIN_RAW: i64 = 429497;

/// Raw value of one half.
pub const HALF_RAW: i64 = 0x8000_0000;

/// The background radiance of a ray that hit nothing: the palette lerped
/// along the unit direction's height, bottom at `y == -1`, top at `y == 1`.
/// All four channels are lerped alike.
pub open spec fn background_v(bottom: C4, top: C4, d: V3) -> C4 {
    let t = fx_mul_v(fx_add_v(crate::geo::vec3::v3_normalized(d).y, SCALE as int), HALF_RAW as int);
    C4 {
        r: lerp_v(t, bottom.r, top.r),
        g: lerp_v(t, bottom.g, top.g),
        b: lerp_v(t, bottom.b, top.b),
        a: lerp_v(t, bottom.a, top.a),
    }
}

/// Returns the background radiance along a ray that hit nothing.
pub fn background(bottom: LinearColor, top: LinearColor, ray: &Ray) -> (c: LinearColor)
    ensures
        c@ == background_v(bottom@, top@, ray@.d),
{
    let unit = ray.direction().normalized();
    let t = unit.y.add(Fx::one()).mul(Fx::from_raw(HALF_RAW));
    LinearColor::from_channels(
        lerp(t, bottom.r, top.r),
        lerp(t, bottom.g, top.g),
        lerp(t, bottom.b, top.b),
        lerp(t, bottom.a, top.a),
    )
}

/// The radiance estimate along a ray with `limit` bounces left, and the draw
/// state afterwards. An exhausted budget contributes nothing; a miss returns
/// the background; a hit recurses through the material's scatter, filtering
/// the gathered radiance by the attenuation, or contributes nothing when the
/// surface absorbs.
#[verifier::opaque]
pub open spec fn ray_color_v(
    objects: Seq<Primitive>,
    bottom: C4,
    top: C4,
    ray: RayV,
    limit: nat,
    s: u64,
) -> (C4, u64)
    decreases limit,
{
    if limit == 0 {
        (c4_default(), s)
    } else {
        match scene_hit_v(objects, ray, T_MIN_RAW as int, FX_MAX_RAW as int) {
            Option::Some(hit) => {
                let scattered = scatter_v(hit.material, ray, hit, V3 { x: 0, y: 0, z: 0 }, s);
                match scattered.0 {
                    Option::Some(next) => {
                        let rec = ray_color_v(
                            objects,
                            bottom,
                            top,
                            next,
                            (limit - 1) as nat,
                            scattered.2,
                        );
                        (
                            C4 {
                                r: fx_mul_v(rec.0.r, scattered.1.x),
                                g: fx_mul_v(rec.0.g, scattered.1.y),
                                b: fx_mul_v(rec.0.b, scattered.1.z),
                                a: SCALE as int,
                            },
                            rec.1,
                        )
                    },
                    Option::None => (c4_default(), scattered.2),
                }
            },
            Option::None => (background_v(bottom, top, ray.d), s),
        }
    }
}

/// The recursive radiance estimate along a ray, with at most `limit`
/// bounces. With the budget exhausted it returns zero radiance regardless of
/// the scene.
pub fn ray_color(scene: &Scene, ray: &Ray, limit: usize, rng: &mut Rng) -> (c: LinearColor)
    ensures
        (c@, final(rng).state) == ray_color_v(
            scene.objects@,
            scene.background_bottom@,
            scene.background_top@,
            ray@,
            limit as nat,
            old(rng).state,
        ),
        limit == 0 ==> c@ == c4_default() && *final(rng) == *old(rng),
    decreases limit,
{
    proof {
        reveal(ray_color_v);
    }
    if limit == 0 {
        return LinearColor::default();
    }
    // the bias above zero prevents shadow acne
    if let Some(hit) = scene.hit(ray, Fx::from_raw(T_MIN_RAW), Fx::from_raw(FX_MAX_RAW)) {
        let mut attenuation = vec3(Fx::zero(), Fx::zero(), Fx::zero());
        if let Some(scattered) = hit.material.scatter(ray, &hit, &mut attenuation, rng) {
            let c = ray_color(scene, &scattered, limit - 1, rng);
            LinearColor::from_channels(
                c.r.mul(attenuation.x),
                c.g.mul(attenuation.y),
                c.b.mul(attenuation.z),
                Fx::one(),
            )
        } else {
            LinearColor::default()
        }
    } else {
        background(scene.background_bottom, scene.background_top, ray)
    }
}

/// The accumulated radiance of `k` remaining pixel samples and the draw
/// state afterwards: each sample jitters the pixel coordinate by two unit
/// draws, asks the camera for the primary ray and adds the integrator's
/// estimate.
#[verifier::opaque]
pub open spec fn sample_loop_v(
    objects: Seq<Primitive>,
    bottom: C4,
    top: C4,
    cam: CameraV,
    nx: int,
    ny: int,
    i: int,
    j: int,
    bounce: nat,
    k: nat,
    acc: C4,
    s: u64,
) -> (C4, u64)
    decreases k,
{
    if k == 0 {
        (acc, s)
    } else {
        let xi_u = rng_unit(s);
        let s1 = sm_bump(s);
        let xi_v = rng_unit(s1);
        let s2 = sm_bump(s1);
        let u = fx_div_v(fx_add_v(fx_whole_v(i), xi_u), fx_whole_v(nx));
        let v = fx_div_v(fx_add_v(fx_whole_v(j), xi_v), fx_whole_v(ny));
        let ray = camera_get_ray_v(cam, u, v);
        let rec = ray_color_v(objects, bottom, top, ray, bounce, s2);
        sample_loop_v(
            objects,
            bottom,
            top,
            cam,
            nx,
            ny,
            i,
            j,
            bounce,
            (k - 1) as nat,
            c4_add(acc, rec.0),
            rec.1,
        )
    }
}

/// The color of the pixel at `(i, j)`: the average of `ns` jittered samples,
/// drawn from a generator keyed by the seed and the pixel coordinate.
pub open spec fn render_pixel_v(
    objects: Seq<Primitive>,
    bottom: C4,
    top: C4,
    cam: CameraV,
    nx: int,
    ny: int,
    ns: int,
    bounce: nat,
    i: int,
    j: int,
    seed: u64,
) -> C4 {
    let s0 = rng_key(seed, i as u64, j as u64);
    let acc = sample_loop_v(
        objects,
        bottom,
        top,
        cam,
        nx,
        ny,
        i,
        j,
        bounce,
        ns as nat,
        c4_default(),
        s0,
    );
    c4_scale(acc.0, fx_div_v(SCALE as int, fx_whole_v(ns)))
}

/// Renders the single pixel at `(i, j)`, with its own generator keyed from
/// the root seed and the coordinates, so pixels may be computed in any order
/// or in parallel and still agree with the sequential render.
pub fn render_pixel(
    scene: &Scene,
    camera: &Camera,
    opt: &RenderOptions,
    seed: u64,
    i: usize,
    j: usize,
) -> (c: LinearColor)
    requires
        i < opt.nx <= 0x7FFF_FFFF,
        j < opt.ny <= 0x7FFF_FFFF,
        opt.ns <= 0x7FFF_FFFF,
    ensures
        c@ == render_pixel_v(
            scene.objects@,
            scene.background_bottom@,
            scene.background_top@,
            camera@,
            opt.nx as int,
            opt.ny as int,
            opt.ns as int,
            opt.n_max_bounce as nat,
            i as int,
            j as int,
            seed,
        ),
{
    let mut rng = Rng::keyed(seed, i as u64, j as u64);
    let ghost s0: u64 = rng.state;
    let mut color = LinearColor::default();
    let mut done: usize = 0;
    while done < opt.ns
        invariant
            done <= opt.ns <= 0x7FFF_FFFF,
            i < opt.nx <= 0x7FFF_FFFF,
            j < opt.ny <= 0x7FFF_FFFF,
            sample_loop_v(
                scene.objects@,
                scene.background_bottom@,
                scene.background_top@,
                camera@,
                opt.nx as int,
                opt.ny as int,
                i as int,
                j as int,
                opt.n_max_bounce as nat,
                opt.ns as nat,
                c4_default(),
                s0,
            ) == sample_loop_v(
                scene.objects@,
                scene.background_bottom@,
                scene.background_top@,
                camera@,
                opt.nx as int,
                opt.ny as int,
                i as int,
                j as int,
                opt.n_max_bounce as nat,
                (opt.ns - done) as nat,
                color@,
                rng.state,
            ),
        decreases opt.ns - done,
    {
        proof {
            reveal(sample_loop_v);
        }
        let xi_u = rng.next_unit();
        let u = Fx::whole(i as i32).add(xi_u).div(Fx::whole(opt.nx as i32));
        let xi_v = rng.next_unit();
        let v = Fx::whole(j as i32).add(xi_v).div(Fx::whole(opt.ny as i32));
        let ray = camera.get_ray(u, v);
        color = color.add(ray_color(scene, &ray, opt.n_max_bounce, &mut rng));
        done = done + 1;
    }
    proof {
        reveal(sample_loop_v);
    }
    color.mul(Fx::whole(opt.ns as i32).recip())
}

/// The whole image, row-major with row 0 the top of the image: the pixel at
/// buffer index `idx` is column `idx % nx` of scene row `ny - 1 - idx / nx`,
/// so rows come out top to bottom.
pub open spec fn render_image_v(
    objects: Seq<Primitive>,
    bottom: C4,
    top: C4,
    cam: CameraV,
    nx: int,
    ny: int,
    ns: int,
    bounce: nat,
    seed: u64,
) -> Seq<C4> {
    Seq::new(
        (nx * ny) as nat,
        |idx: int|
            render_pixel_v(
                objects,
                bottom,
                top,
                cam,
                nx,
                ny,
                ns,
                bounce,
                idx % nx,
                ny - 1 - idx / nx,
                seed,
            ),
    )
}

/// Renders the scene into a row-major, top-to-bottom buffer of linear
/// colors, one pixel at a time.
pub fn render(scene: &Scene, camera: &Camera, opt: RenderOptions, seed: u64) -> (pixels: Vec<
    LinearColor,
>)
    requires
        opt.nx * opt.ny <= usize::MAX,
        opt.nx <= 0x7FFF_FFFF,
        opt.ny <= 0x7FFF_FFFF,
        opt.ns <= 0x7FFF_FFFF,
    ensures
        pixels@.map_values(|c: LinearColor| c@) == render_image_v(
            scene.objects@,
            scene.background_bottom@,
            scene.background_top@,
            camera@,
            opt.nx as int,
            opt.ny as int,
            opt.ns as int,
            opt.n_max_bounce as nat,
            seed,
        ),
{
    let ghost image = render_image_v(
        scene.objects@,
        scene.background_bottom@,
        scene.background_top@,
        camera@,
        opt.nx as int,
        opt.ny as int,
        opt.ns as int,
        opt.n_max_bounce as nat,
        seed,
    );
    let mut pixels: Vec<LinearColor> = Vec::new();
    let mut row: usize = 0;
    while row < opt.ny
        invariant
            row <= opt.ny,
            opt.nx * opt.ny <= usize::MAX,
            opt.nx <= 0x7FFF_FFFF,
            opt.ny <= 0x7FFF_FFFF,
            opt.ns <= 0x7FFF_FFFF,
            pixels@.len() == row * opt.nx,
            image == render_image_v(
                scene.objects@,
                scene.background_bottom@,
                scene.background_top@,
                camera@,
                opt.nx as int,
                opt.ny as int,
                opt.ns as int,
                opt.n_max_bounce as nat,
                seed,
            ),
            forall|idx: int| 0 <= idx < pixels@.len() ==> #[trigger] pixels@[idx]@ == image[idx],
        decreases opt.ny - row,
    {
        proof {
            vstd::arithmetic::mul::lemma_mul_inequality(
                row as int + 1,
                opt.ny as int,
                opt.nx as int,
            );
            assert((row + 1) * opt.nx == row * opt.nx + opt.nx) by (nonlinear_arith);
            assert(opt.ny * opt.nx == opt.nx * opt.ny) by (nonlinear_arith);
        }
        let j = opt.ny - 1 - row;
        let mut i: usize = 0;
        while i < opt.nx
            invariant
                i <= opt.nx,
                row < opt.ny,
                j == opt.ny - 1 - row,
                opt.nx * opt.ny <= usize::MAX,
                opt.nx <= 0x7FFF_FFFF,
                opt.ny <= 0x7FFF_FFFF,
                opt.ns <= 0x7FFF_FFFF,
                row * opt.nx + opt.nx <= opt.nx * opt.ny,
                pixels@.len() == row * opt.nx + i,
                image == render_image_v(
                    scene.objects@,
                    scene.background_bottom@,
                    scene.background_top@,
                    camera@,
                    opt.nx as int,
                    opt.ny as int,
                    opt.ns as int,
                    opt.n_max_bounce as nat,
                    seed,
                ),
                forall|idx: int|
                    0 <= idx < pixels@.len() ==> #[trigger] pixels@[idx]@ == image[idx],
            decreases opt.nx - i,
        {
            let c = render_pixel(scene, camera, &opt, seed, i, j);
            proof {
                let idx = pixels@.len() as int;
                vstd::arithmetic::div_mod::lemma_fundamental_div_mod_converse(
                    idx,
                    opt.nx as int,
                    row as int,
                    i as int,
                );
            }
            pixels.push(c);
            i = i + 1;
        }
        row = row + 1;
    }
    proof {
        assert(opt.ny * opt.nx == opt.nx * opt.ny) by (nonlinear_arith);
        assert(pixels@.map_values(|c: LinearColor| c@) =~= image);
    }
    pixels
}

/// One display pixel of a tone-mapped buffer sized for the image: the
/// gamma-encoded color where the linear buffer provides one, a cleared pixel
/// where it is too short.
pub open spec fn tonemap_pixel_v(colors: Seq<LinearColor>, k: int) -> Rgba<u8> {
    if 0 <= k < colors.len() {
        Rgba {
            r: gamma_byte_v(colors[k]@.r) as u8,
            g: gamma_byte_v(colors[k]@.g) as u8,
            b: gamma_byte_v(colors[k]@.b) as u8,
            a: alpha_byte_v(colors[k]@.a) as u8,
        }
    } else {
        Rgba { r: 0, g: 0, b: 0, a: 0 }
    }
}

/// Tone-maps a linear buffer to a dense row-major display buffer of the
/// given size: each channel is gamma-encoded to a byte, alpha linearly.
pub fn tonemap(colors: &Vec<LinearColor>, dims: (usize, usize)) -> (pixels: Vec<Rgba<u8>>)
    requires
        dims.0 * dims.1 <= usize::MAX,
    ensures
        pixels@.len() == dims.0 * dims.1,
        forall|k: int|
            0 <= k < pixels@.len() ==> #[trigger] pixels@[k] == tonemap_pixel_v(colors@, k),
{
    let (nx, ny) = dims;
    let total = nx * ny;
    let mut pixels: Vec<Rgba<u8>> = Vec::new();
    let mut k: usize = 0;
    while k < total
        invariant
            k <= total,
            pixels@.len() == k,
            forall|m: int| 0 <= m < k ==> #[trigger] pixels@[m] == tonemap_pixel_v(colors@, m),
        decreases total - k,
    {
        if k < colors.len() {
            pixels.push(colors[k].to_rgba());
        } else {
            pixels.push(Rgba::from_channels(0, 0, 0, 0));
        }
        k = k + 1;
    }
    pixels
}

/// A seeded render is deterministic: two images of the same scene, camera,
/// options and seed are identical, pixel for pixel.
pub proof fn lemma_render_deterministic(
    a: Seq<C4>,
    b: Seq<C4>,
    objects: Seq<Primitive>,
    bottom: C4,
    top: C4,
    cam: CameraV,
    nx: int,
    ny: int,
    ns: int,
    bounce: nat,
    seed: u64,
)
    requires
        a == render_image_v(objects, bottom, top, cam, nx, ny, ns, bounce, seed),
        b == render_image_v(objects, bottom, top, cam, nx, ny, ns, bounce, seed),
    ensures
        a == b,
{
}

} // verus!
