//! The dielectric (glass-like) material.

use crate::fx::{fx_add_v, fx_div_v, fx_max_v, fx_min_v, fx_mul_v, fx_neg_v, fx_sqrt_v, fx_sub_v,
    Fx, SCALE};
use crate::geo::ray::{Ray, RayV};
use crate::geo::vec3::{v3_add, v3_dot, v3_len_squared, v3_neg, v3_normalized, v3_scale, Vec3, V3};
use crate::hit::{HitStruct, HitV};
use crate::material::{opt_ray_v, reflect, reflect_v};
use crate::rng::{rng_unit, sm_bump, Rng};
use vstd::prelude::*;

verus! {

/// A refracting surface of the given refraction index (greater than zero).
#[derive(Clone, Copy, Debug, PartialEq, Eq, Structural)]
pub struct Dielectric {
    pub refraction_index: Fx,
}

/// `(1 - c)^5`, multiplied out as `((c' * c') * (c' * c')) * c'`.
pub open spec fn pow5_v(c: int) -> int {
    fx_mul_v(fx_mul_v(fx_mul_v(c, c), fx_mul_v(c, c)), c)
}

/// The Schlick approximation to the Fresnel reflectance: with
/// `r0 = ((1 - n) / (1 + n))^2`, it is `r0 + (1 - r0) * (1 - cos)^5`.
pub open spec fn schlick_v(cosine: int, refraction_index: int) -> int {
    let r0 = fx_div_v(fx_sub_v(SCALE as int, refraction_index), fx_add_v(
        SCALE as int,
        refraction_index,
    ));
    let r0sq = fx_mul_v(r0, r0);
    fx_add_v(r0sq, fx_mul_v(fx_sub_v(SCALE as int, r0sq), pow5_v(fx_sub_v(SCALE as int, cosine))))
}

/// The refracted direction of `uv` through a surface of unit normal `n` with
/// relative index `eta`: the parallel part is `(uv + n * cos) * eta` and the
/// perpendicular part restores unit length.
pub open spec fn refract_v(uv: V3, n: V3, eta: int) -> V3 {
    let cos = fx_neg_v(v3_dot(uv, n));
    let r_par = v3_scale(v3_add(uv, v3_scale(n, cos)), eta);
    let r_perp = v3_scale(
        n,
        fx_neg_v(fx_sqrt_v(fx_sub_v(SCALE as int, fx_min_v(v3_len_squared(r_par), SCALE as int)))),
    );
    v3_add(r_par, r_perp)
}

/// What a dielectric scatter returns on draw state `s`. The surface always
/// scatters with attenuation one. With the normal and index ratio oriented by
/// the struck side, the ray reflects on total internal reflection; otherwise
/// one draw decides between reflection (with the Schlick probability) and
/// refraction.
#[verifier::opaque]
pub open spec fn dielectric_scatter_v(refraction_index: int, ray: RayV, hit: HitV, s: u64) -> (
    Option<RayV>,
    V3,
    u64,
) {
    let white = V3 { x: SCALE as int, y: SCALE as int, z: SCALE as int };
    let d = v3_normalized(ray.d);
    let eta = if hit.front_face {
        fx_div_v(SCALE as int, refraction_index)
    } else {
        refraction_index
    };
    let n = if hit.front_face {
        v3_normalized(hit.n)
    } else {
        v3_neg(v3_normalized(hit.n))
    };
    let cos = fx_max_v(fx_min_v(v3_dot(v3_neg(d), n), SCALE as int), -(SCALE as int));
    let sin = fx_sqrt_v(fx_sub_v(SCALE as int, fx_mul_v(cos, cos)));
    if fx_mul_v(eta, sin) > SCALE as int {
        (Option::Some(RayV { o: hit.p, d: reflect_v(d, n) }), white, s)
    } else {
        let draw = rng_unit(s);
        let s1 = sm_bump(s);
        if draw < schlick_v(cos, refraction_index) {
            (Option::Some(RayV { o: hit.p, d: reflect_v(d, n) }), white, s1)
        } else {
            (Option::Some(RayV { o: hit.p, d: refract_v(d, n, eta) }), white, s1)
        }
    }
}

/// The endpoints of the Schlick approximation. At normal incidence
/// (a cosine of one) the reflectance is exactly `r0 = ((1 - n) / (1 + n))^2`,
/// and at grazing incidence (a cosine of zero) it is exactly one.
pub proof fn lemma_schlick_endpoints(n: int)
    requires
        0 < n <= crate::fx::FX_MAX_RAW,
    ensures
        schlick_v(SCALE as int, n) == fx_mul_v(
            fx_div_v(fx_sub_v(SCALE as int, n), fx_add_v(SCALE as int, n)),
            fx_div_v(fx_sub_v(SCALE as int, n), fx_add_v(SCALE as int, n)),
        ),
        schlick_v(0, n) == SCALE as int,
{
    let s = SCALE as int;
    let bot = fx_add_v(s, n);
    let r0 = fx_div_v(fx_sub_v(s, n), bot);
    let r0sq = fx_mul_v(r0, r0);

    assert(0 < bot && crate::fx::abs_i(fx_sub_v(s, n)) <= bot);
    crate::fx::lemma_div_within_one(fx_sub_v(s, n), bot);
    crate::fx::lemma_square_within_one(r0);

    // normal incidence: the fifth power of `1 - 1` vanishes, leaving `r0^2`
    crate::fx::lemma_mul_zero(0);
    assert(pow5_v(fx_sub_v(s, s)) == 0);
    crate::fx::lemma_mul_zero(fx_sub_v(s, r0sq));
    assert(schlick_v(s, n) == fx_add_v(r0sq, 0));

    // grazing incidence: the fifth power of `1 - 0` is one, and
    // `r0^2 + (1 - r0^2) * 1` collapses to one
    crate::fx::lemma_mul_one(s);
    assert(pow5_v(fx_sub_v(s, 0)) == s);
    crate::fx::lemma_mul_one(fx_sub_v(s, r0sq));
    assert(schlick_v(0, n) == fx_add_v(r0sq, fx_sub_v(s, r0sq)));
}

/// A head-on refraction is exact: a unit direction straight against the
/// normal passes through unchanged, whatever the relative index, so
/// refracting such a direction through an interface and back recovers it
/// exactly.
pub proof fn lemma_refract_head_on_round_trip(eta_in: int, eta_out: int)
    ensures
        refract_v(
            V3 { x: 0, y: 0, z: -(SCALE as int) },
            V3 { x: 0, y: 0, z: SCALE as int },
            eta_in,
        ) == (V3 { x: 0, y: 0, z: -(SCALE as int) }),
        refract_v(
            refract_v(
                V3 { x: 0, y: 0, z: -(SCALE as int) },
                V3 { x: 0, y: 0, z: SCALE as int },
                eta_in,
            ),
            V3 { x: 0, y: 0, z: SCALE as int },
            eta_out,
        ) == (V3 { x: 0, y: 0, z: -(SCALE as int) }),
{
    let s = SCALE as int;
    let d = V3 { x: 0, y: 0, z: -s };
    let n = V3 { x: 0, y: 0, z: s };

    assert(s * s == 0x1_0000_0000_0000_0000int) by (nonlinear_arith)
        requires
            s == 0x1_0000_0000int,
    ;
    assert((-s) * s == -0x1_0000_0000_0000_0000int) by (nonlinear_arith)
        requires
            s == 0x1_0000_0000int,
    ;
    crate::fx::lemma_mul_zero(0);
    crate::fx::lemma_mul_zero(eta_in);
    crate::fx::lemma_mul_zero(eta_out);
    assert(0x1_0000_0000_0000_0000int / 0x1_0000_0000int == 0x1_0000_0000int);
    assert(crate::fx::abs_i(-0x1_0000_0000_0000_0000int) == 0x1_0000_0000_0000_0000int);
    assert(fx_mul_v(-s, s) == -s);
    assert(fx_mul_v(s, s) == s);

    // the incoming direction cancels against the scaled normal, so the
    // parallel part is the zero vector whatever the index
    assert(v3_dot(d, n) == -s);
    let cos = fx_neg_v(v3_dot(d, n));
    assert(v3_add(d, v3_scale(n, cos)) == V3 { x: 0, y: 0, z: 0 });
    let r_par_in = v3_scale(v3_add(d, v3_scale(n, cos)), eta_in);
    assert(r_par_in == V3 { x: 0, y: 0, z: 0 });
    assert(v3_len_squared(r_par_in) == 0);

    // the perpendicular part restores the full unit normal, flipped
    assert(fx_sub_v(s, fx_min_v(0, s)) == s);
    assert(crate::fx::is_isqrt(s * s, s)) by (nonlinear_arith)
        requires
            s == 0x1_0000_0000int,
    ;
    crate::fx::lemma_isqrt_unique(s * s, s, crate::fx::isqrt_v(s * s));
    assert(fx_sqrt_v(s) == s);
    assert(refract_v(d, n, eta_in) == d);

    let r_par_out = v3_scale(v3_add(d, v3_scale(n, cos)), eta_out);
    assert(r_par_out == V3 { x: 0, y: 0, z: 0 });
    assert(refract_v(d, n, eta_out) == d);
}

impl Dielectric {
    /// Always scatters with attenuation one: by reflection on total internal
    /// reflection or a Schlick draw, by refraction otherwise.
    pub fn scatter(&self, r_in: &Ray, rec: &HitStruct, attenuation: &mut Vec3, rng: &mut Rng) -> (r: Option<
        Ray,
    >)
        ensures
            (opt_ray_v(r), final(attenuation)@, final(rng).state) == dielectric_scatter_v(
                self.refraction_index.raw as int,
                r_in@,
                rec@,
                old(rng).state,
            ),
            r is Some,
    {
        proof {
            reveal(dielectric_scatter_v);
        }
        *attenuation = Vec3::new(Fx::one(), Fx::one(), Fx::one());
        // ray direction, normalized
        let d = r_in.direction().normalized();

        let eta = if rec.front_face {
            self.refraction_index.recip()
        } else {
            self.refraction_index
        };
        let n = if rec.front_face {
            rec.n.normalized()
        } else {
            rec.n.normalized().neg()
        };

        let cos_theta = d.neg().dot(n).min(Fx::one()).max(Fx::one().neg());
        let sin_theta = Fx::one().sub(cos_theta.mul(cos_theta)).sqrt();

        let scattered = if Fx::one().lt(eta.mul(sin_theta)) {
            // Total internal reflection
            reflect(d, n)
        } else {
            let reflect_prob = schlick(cos_theta, self.refraction_index);
            if rng.next_unit().lt(reflect_prob) {
                reflect(d, n)
            } else {
                refract(d, n, eta)
            }
        };

        Some(Ray::new(rec.p, scattered))
    }
}

/// The Schlick reflectance approximation; `cosine` must be a valid cosine,
/// in `[-1, 1]`.
pub fn schlick(cosine: Fx, refraction_index: Fx) -> (r: Fx)
    requires
        -(SCALE as int) <= cosine.raw as int <= SCALE as int,
    ensures
        r.raw as int == schlick_v(cosine.raw as int, refraction_index.raw as int),
{
    let r0 = Fx::one().sub(refraction_index).div(Fx::one().add(refraction_index));
    let r0 = r0.mul(r0);
    r0.add(Fx::one().sub(r0).mul(pow5(Fx::one().sub(cosine))))
}

/// Fifth power by repeated multiplication.
fn pow5(c: Fx) -> (r: Fx)
    ensures
        r.raw as int == pow5_v(c.raw as int),
{
    let c2 = c.mul(c);
    c2.mul(c2).mul(c)
}

/// Refracts the unit direction `uv` through a surface of unit normal `n`
/// with relative refraction index `eta`.
pub fn refract(uv: Vec3, n: Vec3, eta: Fx) -> (r: Vec3)
    ensures
        r@ == refract_v(uv@, n@, eta.raw as int),
{
    let cos_theta = uv.dot(n).neg();
    let r_out_parallel = uv.add(n.scale(cos_theta)).scale(eta);
    let r_out_perp = n.scale(
        Fx::one().sub(r_out_parallel.len_squared().min(Fx::one())).sqrt().neg(),
    );
    r_out_parallel.add(r_out_perp)
}

} // verus!
