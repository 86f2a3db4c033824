//! Colors in linear light space.

use crate::color::rgba::Rgba;
use crate::fx::{fx_add_v, fx_div_v, fx_max_v, fx_min_v, fx_mul_v, Fx, SCALE};
use vstd::arithmetic::power::pow;
use vstd::prelude::*;

verus! {

/// A color of four channels in linear light space, before any gamma
/// encoding. The alpha channel conventionally ends a render at one.
#[derive(Clone, Copy, Debug, PartialEq, Eq, Structural)]
pub struct LinearColor {
    pub r: Fx,
    pub g: Fx,
    pub b: Fx,
    pub a: Fx,
}

/// The mathematical image of a linear color: its four raw channel values.
#[verifier::ext_equal]
pub ghost struct C4 {
    pub r: int,
    pub g: int,
    pub b: int,
    pub a: int,
}

impl View for LinearColor {
    type V = C4;

    open spec fn view(&self) -> C4 {
        C4 { r: self.r.raw as int, g: self.g.raw as int, b: self.b.raw as int, a: self.a.raw as int }
    }
}

/// The color a fresh accumulator starts from: black, opaque.
pub open spec fn c4_default() -> C4 {
    C4 { r: 0, g: 0, b: 0, a: SCALE as int }
}

/// Color-scalar multiplication: the color channels scale, alpha is kept.
pub open spec fn c4_scale(c: C4, s: int) -> C4 {
    C4 { r: fx_mul_v(c.r, s), g: fx_mul_v(c.g, s), b: fx_mul_v(c.b, s), a: c.a }
}

/// Color addition: the color channels add, the left alpha is kept.
pub open spec fn c4_add(c: C4, d: C4) -> C4 {
    C4 { r: fx_add_v(c.r, d.r), g: fx_add_v(c.g, d.g), b: fx_add_v(c.b, d.b), a: c.a }
}

/// Photometric luminance, summed blue, red, green as the executable code
/// sums it.
pub open spec fn c4_luminance(c: C4) -> int {
    fx_add_v(
        fx_add_v(fx_mul_v(c.b, LUMA_B as int), fx_mul_v(c.r, LUMA_R as int)),
        fx_mul_v(c.g, LUMA_G as int),
    )
}

/// `c / (1 + c)` on one channel, the Reinhard curve.
pub open spec fn reinhard_v(c: int) -> int {
    fx_div_v(c, fx_add_v(SCALE as int, c))
}

/// The extended Reinhard curve on one channel, with white point `w`:
/// `c * (1 + c / w^2) / (1 + c)`.
pub open spec fn reinhard_ext_v(c: int, w: int) -> int {
    let mw2 = fx_mul_v(w, w);
    fx_div_v(fx_mul_v(c, fx_add_v(SCALE as int, fx_div_v(c, mw2))), fx_add_v(SCALE as int, c))
}

/// A channel clamped to the displayable band `[0, 1]`.
pub open spec fn unit_clamp_v(c: int) -> int {
    fx_max_v(fx_min_v(c, SCALE as int), 0)
}

/// Whether the display byte `b` still gamma-decodes to at most the clamped
/// raw channel `c`: `(b / 255)^(11/5) <= c / 2^32`, cleared of fractions.
/// The exponent `11/5` is the display gamma 2.2; the constant is 2^160.
pub open spec fn gamma_le_v(b: int, c: int) -> bool {
    pow(b, 11) * 0x1_0000_0000_0000_0000_0000_0000_0000_0000_0000_0000 <= pow(c, 5) * pow(
        255,
        11,
    )
}

/// The largest byte not above `b` that still gamma-decodes to at most the
/// raw channel `c`; zero always qualifies.
pub open spec fn gamma_search_v(c: int, b: int) -> int
    decreases b,
{
    if b <= 0 {
        0
    } else if gamma_le_v(b, c) {
        b
    } else {
        gamma_search_v(c, b - 1)
    }
}

/// The display byte of a linear channel: the largest byte that
/// gamma-decodes to at most the channel, clamped to `[0, 1]`. This is
/// `(c^(1/2.2) * 255)` rounded down, at the scalar's full precision.
pub open spec fn gamma_byte_v(c: int) -> int {
    gamma_search_v(unit_clamp_v(c), 255)
}

/// The display byte of the alpha channel, encoded linearly.
pub open spec fn alpha_byte_v(a: int) -> int {
    unit_clamp_v(a) * 255 / (SCALE as int)
}

/// Whether the raw linear channel `y` still gamma-encodes to at most the
/// display byte `x`: `y / 2^32 <= (x / 255)^(11/5)`, cleared of fractions.
pub open spec fn degamma_le_v(y: int, x: int) -> bool {
    pow(y, 5) * pow(255, 11) <= pow(x, 11) * 0x1_0000_0000_0000_0000_0000_0000_0000_0000_0000_0000
}

/// `y` is the gamma decode of the display byte `x` at the scalar's full
/// precision: the largest raw value in `[0, 1]` that still gamma-encodes to
/// at most `x`. This is `(x / 255)^2.2` rounded down to a raw step.
pub open spec fn is_degamma(x: int, y: int) -> bool {
    0 <= y <= 0x1_0000_0000 && degamma_le_v(y, x) && (y == 0x1_0000_0000 || !degamma_le_v(
        y + 1,
        x,
    ))
}

/// The linear channel of a display byte, at full raw precision.
pub open spec fn degamma_raw_v(x: int) -> int {
    choose|y: int| is_degamma(x, y)
}

/// The linear alpha of a display byte: `x / 255`.
pub open spec fn alpha_raw_v(x: int) -> int {
    fx_div_v(crate::fx::fx_whole_v(x), crate::fx::fx_whole_v(255))
}

/// Raw weight of blue in luminance: 0.0722.
pub const LUMA_B: i64 = 310100827;
/// Raw weight of red in luminance: 0.2126.
pub const LUMA_R: i64 = 913095956;
/// Raw weight of green in luminance: 0.7152.
pub const LUMA_G: i64 = 3071770513;

/// Clamps a channel to the displayable band `[0, 1]`.
fn unit_clamp(c: Fx) -> (r: Fx)
    ensures
        r.raw as int == unit_clamp_v(c.raw as int),
        0 <= r.raw <= SCALE,
{
    c.min(Fx::one()).max(Fx::zero())
}

/// Powers of a nonnegative base are nonnegative.
proof fn lemma_pow_nonneg(a: int, e: nat)
    requires
        0 <= a,
    ensures
        0 <= pow(a, e),
    decreases e,
{
    reveal(vstd::arithmetic::power::pow);
    if e > 0 {
        lemma_pow_nonneg(a, (e - 1) as nat);
        assert(0 <= a * pow(a, (e - 1) as nat)) by (nonlinear_arith)
            requires
                0 <= a,
                0 <= pow(a, (e - 1) as nat),
        ;
    }
}

/// Raising a larger base to a power gives a larger result.
proof fn lemma_pow_base_monotone(a: int, b: int, e: nat)
    requires
        0 <= a <= b,
    ensures
        pow(a, e) <= pow(b, e),
    decreases e,
{
    reveal(vstd::arithmetic::power::pow);
    if e > 0 {
        lemma_pow_base_monotone(a, b, (e - 1) as nat);
        lemma_pow_nonneg(a, (e - 1) as nat);
        lemma_pow_nonneg(b, (e - 1) as nat);
        assert(a * pow(a, (e - 1) as nat) <= b * pow(b, (e - 1) as nat)) by (nonlinear_arith)
            requires
                0 <= a <= b,
                0 <= pow(a, (e - 1) as nat) <= pow(b, (e - 1) as nat),
        ;
    }
}

/// Eleventh power by repeated squaring; for bases up to a byte the result
/// stays under 2^88.
fn pow11_u128(b: u64) -> (r: u128)
    requires
        b <= 256,
    ensures
        r as int == pow(b as int, 11),
        b <= 255 ==> r < 0x100_0000_0000_0000_0000_0000u128,
{
    let x: u128 = b as u128;
    proof {
        assert(x * x <= 0x10000) by (nonlinear_arith)
            requires
                x <= 0x100u128,
        ;
    }
    let x2: u128 = x * x;
    proof {
        assert(x2 * x2 <= 0x1_0000_0000) by (nonlinear_arith)
            requires
                x2 <= 0x10000u128,
        ;
    }
    let x4: u128 = x2 * x2;
    proof {
        assert(x4 * x4 <= 0x1_0000_0000_0000_0000) by (nonlinear_arith)
            requires
                x4 <= 0x1_0000_0000u128,
        ;
    }
    let x8: u128 = x4 * x4;
    proof {
        assert(x8 * x2 <= 0x1_0000_0000_0000_0000_0000) by (nonlinear_arith)
            requires
                x8 <= 0x1_0000_0000_0000_0000u128,
                x2 <= 0x10000u128,
        ;
    }
    let x10: u128 = x8 * x2;
    proof {
        assert(x10 * x <= 0x100_0000_0000_0000_0000_0000) by (nonlinear_arith)
            requires
                x10 <= 0x1_0000_0000_0000_0000_0000u128,
                x <= 0x100u128,
        ;
        if x <= 0xFF {
            assert(x2 <= 65025) by (nonlinear_arith)
                requires
                    x <= 0xFFu128,
                    x2 == x * x,
            ;
            assert(x4 <= 4228250625) by (nonlinear_arith)
                requires
                    x2 <= 65025u128,
                    x4 == x2 * x2,
            ;
            assert(x8 <= 17878103347812890625) by (nonlinear_arith)
                requires
                    x4 <= 4228250625u128,
                    x8 == x4 * x4,
            ;
            assert(x10 <= 1162523670191533212890625) by (nonlinear_arith)
                requires
                    x8 <= 17878103347812890625u128,
                    x2 <= 65025u128,
                    x10 == x8 * x2,
            ;
            assert(x10 * x < 0x100_0000_0000_0000_0000_0000) by (nonlinear_arith)
                requires
                    x10 <= 1162523670191533212890625u128,
                    x <= 0xFFu128,
            ;
        }
        lemma_pow_chain(b as int);
    }
    x10 * x
}

/// Unfolds the powers that evaluation by repeated squaring reaches.
proof fn lemma_pow_chain(b: int)
    ensures
        pow(b, 1) == b,
        pow(b, 2) == b * b,
        pow(b, 4) == pow(b, 2) * pow(b, 2),
        pow(b, 5) == pow(b, 4) * b,
        pow(b, 8) == pow(b, 4) * pow(b, 4),
        pow(b, 10) == pow(b, 8) * pow(b, 2),
        pow(b, 11) == pow(b, 10) * b,
{
    vstd::arithmetic::power::lemma_pow1(b);
    vstd::arithmetic::power::lemma_pow_adds(b, 1, 1);
    vstd::arithmetic::power::lemma_pow_adds(b, 2, 2);
    vstd::arithmetic::power::lemma_pow_adds(b, 4, 1);
    vstd::arithmetic::power::lemma_pow_adds(b, 4, 4);
    vstd::arithmetic::power::lemma_pow_adds(b, 8, 2);
    vstd::arithmetic::power::lemma_pow_adds(b, 10, 1);
}

/// Raising a strictly larger base to a positive power gives a strictly
/// larger result.
proof fn lemma_pow_base_strict(a: int, b: int, e: nat)
    requires
        0 <= a < b,
        e >= 1,
    ensures
        pow(a, e) < pow(b, e),
    decreases e,
{
    reveal(vstd::arithmetic::power::pow);
    if e == 1 {
        vstd::arithmetic::power::lemma_pow1(a);
        vstd::arithmetic::power::lemma_pow1(b);
    } else {
        lemma_pow_base_strict(a, b, (e - 1) as nat);
        lemma_pow_nonneg(a, (e - 1) as nat);
        vstd::arithmetic::power::lemma_pow_positive(b, (e - 1) as nat);
        assert(a * pow(a, (e - 1) as nat) < b * pow(b, (e - 1) as nat)) by (nonlinear_arith)
            requires
                0 <= a < b,
                0 <= pow(a, (e - 1) as nat) < pow(b, (e - 1) as nat),
                0 < pow(b, (e - 1) as nat),
        ;
    }
}

/// The value of `255^11`, and its base-2^32 limbs.
proof fn lemma_pow_255_11()
    ensures
        pow(255, 11) == 296443535898840969287109375,
        pow(255, 11) == 16070236 * 0x1_0000_0000_0000_0000 + 1211354294 * 0x1_0000_0000
            + 2764638975,
{
    lemma_pow_chain(255);
    assert(65025 * 65025 == 4228250625int) by (nonlinear_arith);
    assert(4228250625int * 4228250625int == 17878103347812890625int) by (nonlinear_arith);
    assert(17878103347812890625int * 65025int == 1162523670191533212890625int)
        by (nonlinear_arith);
    assert(1162523670191533212890625int * 255int == 296443535898840969287109375int)
        by (nonlinear_arith);
}

/// The value of `(2^32)^5` is 2^160.
proof fn lemma_pow_2_32_5()
    ensures
        pow(0x1_0000_0000, 5) == 0x1_0000_0000_0000_0000_0000_0000_0000_0000_0000_0000,
{
    lemma_pow_chain(0x1_0000_0000);
    assert(0x1_0000_0000int * 0x1_0000_0000int == 0x1_0000_0000_0000_0000int)
        by (nonlinear_arith);
    assert(0x1_0000_0000_0000_0000int * 0x1_0000_0000_0000_0000int
        == 0x1_0000_0000_0000_0000_0000_0000_0000_0000int) by (nonlinear_arith);
    assert(0x1_0000_0000_0000_0000_0000_0000_0000_0000int * 0x1_0000_0000int
        == 0x1_0000_0000_0000_0000_0000_0000_0000_0000_0000_0000int) by (nonlinear_arith);
}

/// Two values below 2^32 multiply to below 2^64.
proof fn lemma_u32_mul(a: int, b: int)
    requires
        0 <= a < 0x1_0000_0000,
        0 <= b < 0x1_0000_0000,
    ensures
        0 <= a * b < 0x1_0000_0000_0000_0000,
{
    assert(0 <= a * b < 0x1_0000_0000_0000_0000) by (nonlinear_arith)
        requires
            0 <= a < 0x1_0000_0000,
            0 <= b < 0x1_0000_0000,
    ;
}

/// `m * 2^128 <= q * 2^128 + r` exactly when `m <= q`, for a remainder
/// within the divisor.
proof fn lemma_shifted_le(m: int, q: int, r: int)
    requires
        0 <= r < 0x1_0000_0000_0000_0000_0000_0000_0000_0000,
    ensures
        (m * 0x1_0000_0000_0000_0000_0000_0000_0000_0000 <= q
            * 0x1_0000_0000_0000_0000_0000_0000_0000_0000 + r) <==> (m <= q),
{
    let t = 0x1_0000_0000_0000_0000_0000_0000_0000_0000int;
    if m <= q {
        vstd::arithmetic::mul::lemma_mul_inequality(m, q, t);
    }
    if q < m {
        vstd::arithmetic::mul::lemma_mul_inequality(q + 1, m, t);
        assert((q + 1) * t == q * t + t) by (nonlinear_arith);
    }
}

/// `q * 2^128 + r <= m * 2^128` exactly when `q` is below `m`, or equal
/// with nothing left over.
proof fn lemma_le_shifted(q: int, r: int, m: int)
    requires
        0 <= r < 0x1_0000_0000_0000_0000_0000_0000_0000_0000,
    ensures
        (q * 0x1_0000_0000_0000_0000_0000_0000_0000_0000 + r <= m
            * 0x1_0000_0000_0000_0000_0000_0000_0000_0000) <==> (q < m || (q == m && r == 0)),
{
    let t = 0x1_0000_0000_0000_0000_0000_0000_0000_0000int;
    if q < m {
        vstd::arithmetic::mul::lemma_mul_inequality(q + 1, m, t);
        assert((q + 1) * t == q * t + t) by (nonlinear_arith);
    }
    if m < q {
        vstd::arithmetic::mul::lemma_mul_inequality(m + 1, q, t);
        assert((m + 1) * t == m * t + t) by (nonlinear_arith);
    }
}

/// The base-2^32 limbs of `pow(c, 5)`, lowest first, for a channel below
/// one.
#[verifier::rlimit(100)]
fn pow5_limbs(c: u64) -> (e: (u128, u128, u128, u128, u128))
    requires
        c < 0x1_0000_0000,
    ensures
        pow(c as int, 5) == e.0 + e.1 * 0x1_0000_0000 + e.2 * 0x1_0000_0000_0000_0000 + e.3
            * 0x1_0000_0000_0000_0000_0000_0000 + e.4
            * 0x1_0000_0000_0000_0000_0000_0000_0000_0000int,
        e.0 < 0x1_0000_0000 && e.1 < 0x1_0000_0000 && e.2 < 0x1_0000_0000 && e.3 < 0x1_0000_0000
            && e.4 < 0x1_0000_0000,
{
    proof {
        lemma_pow_chain(c as int);
        lemma_u32_mul(c as int, c as int);
    }
    let cc: u128 = c as u128;
    let c2: u128 = cc * cc;
    proof {
        assert(c2 * c2 < 0x1_0000_0000_0000_0000_0000_0000_0000_0000int) by (nonlinear_arith)
            requires
                c2 < 0x1_0000_0000_0000_0000u128,
        ;
    }
    let c4: u128 = c2 * c2;

    // base-2^32 limbs of c4
    let a0: u128 = c4 % 0x1_0000_0000;
    let q1: u128 = c4 / 0x1_0000_0000;
    let a1: u128 = q1 % 0x1_0000_0000;
    let q2: u128 = q1 / 0x1_0000_0000;
    let a2: u128 = q2 % 0x1_0000_0000;
    let a3: u128 = q2 / 0x1_0000_0000;

    proof {
        vstd::arithmetic::div_mod::lemma_div_is_ordered(
            c4 as int,
            0xFFFF_FFFF_FFFF_FFFF_FFFF_FFFF_FFFF_FFFFint,
            0x1_0000_0000int,
        );
        vstd::arithmetic::div_mod::lemma_div_is_ordered(
            q1 as int,
            0xFFFF_FFFF_FFFF_FFFF_FFFF_FFFFint,
            0x1_0000_0000int,
        );
        vstd::arithmetic::div_mod::lemma_div_is_ordered(
            q2 as int,
            0xFFFF_FFFF_FFFF_FFFFint,
            0x1_0000_0000int,
        );
        assert(c4 as int == a0 + a1 * 0x1_0000_0000 + a2 * 0x1_0000_0000_0000_0000 + a3
            * 0x1_0000_0000_0000_0000_0000_0000);
        lemma_u32_mul(a0 as int, c as int);
        lemma_u32_mul(a1 as int, c as int);
        lemma_u32_mul(a2 as int, c as int);
        lemma_u32_mul(a3 as int, c as int);
    }

    // c5 = c4 * c, limb by limb with carries
    let t0: u128 = a0 * cc;
    let e0: u128 = t0 % 0x1_0000_0000;
    let t1: u128 = a1 * cc + t0 / 0x1_0000_0000;
    let e1: u128 = t1 % 0x1_0000_0000;
    let t2: u128 = a2 * cc + t1 / 0x1_0000_0000;
    let e2: u128 = t2 % 0x1_0000_0000;
    let t3: u128 = a3 * cc + t2 / 0x1_0000_0000;
    let e3: u128 = t3 % 0x1_0000_0000;
    let e4: u128 = t3 / 0x1_0000_0000;

    proof {
        assert((c4 as int) * (cc as int) == a0 * cc + (a1 * cc) * 0x1_0000_0000 + (a2 * cc)
            * 0x1_0000_0000_0000_0000 + (a3 * cc) * 0x1_0000_0000_0000_0000_0000_0000)
            by (nonlinear_arith)
            requires
                c4 as int == a0 + a1 * 0x1_0000_0000 + a2 * 0x1_0000_0000_0000_0000 + a3
                    * 0x1_0000_0000_0000_0000_0000_0000,
        ;
        assert((c4 as int) * (cc as int) == e0 + e1 * 0x1_0000_0000 + e2 * 0x1_0000_0000_0000_0000
            + e3 * 0x1_0000_0000_0000_0000_0000_0000 + e4
            * 0x1_0000_0000_0000_0000_0000_0000_0000_0000int);
        assert((c4 as int) * (cc as int) < 0x1_0000_0000_0000_0000_0000_0000_0000_0000_0000_0000int)
            by (nonlinear_arith)
            requires
                c4 < 0x1_0000_0000_0000_0000_0000_0000_0000_0000int,
                cc < 0x1_0000_0000u128,
        ;
    }

    let out: (u128, u128, u128, u128, u128) = (e0, e1, e2, e3, e4);
    out
}

/// The quotient and remainder of `pow(c, 5) * pow(255, 11)` by 2^128, for a
/// channel below one, computed exactly against the constant's base-2^32
/// limbs; the remainder lies below 2^128.
#[verifier::rlimit(100)]
fn pow5_k_parts(c: u64) -> (r: (u128, u128))
    requires
        c < 0x1_0000_0000,
    ensures
        (r.0 as int) * 0x1_0000_0000_0000_0000_0000_0000_0000_0000 + r.1 as int == pow(
            c as int,
            5,
        ) * pow(255, 11),
        (r.1 as int) < 0x1_0000_0000_0000_0000_0000_0000_0000_0000int,
{
    let e = pow5_limbs(c);
    let (e0, e1, e2, e3, e4) = e;

    // B = c5 * 255^11, columns in base 2^32 against the constant's limbs
    let col0: u128 = e0 * 2764638975;
    let f0: u128 = col0 % 0x1_0000_0000;
    let col1: u128 = e0 * 1211354294 + e1 * 2764638975 + col0 / 0x1_0000_0000;
    let f1: u128 = col1 % 0x1_0000_0000;
    let col2: u128 = e0 * 16070236 + e1 * 1211354294 + e2 * 2764638975 + col1 / 0x1_0000_0000;
    let f2: u128 = col2 % 0x1_0000_0000;
    let col3: u128 = e1 * 16070236 + e2 * 1211354294 + e3 * 2764638975 + col2 / 0x1_0000_0000;
    let f3: u128 = col3 % 0x1_0000_0000;
    let col4: u128 = e2 * 16070236 + e3 * 1211354294 + e4 * 2764638975 + col3 / 0x1_0000_0000;
    let f4: u128 = col4 % 0x1_0000_0000;
    let col5: u128 = e3 * 16070236 + e4 * 1211354294 + col4 / 0x1_0000_0000;
    let f5: u128 = col5 % 0x1_0000_0000;
    let col6: u128 = e4 * 16070236 + col5 / 0x1_0000_0000;
    let f6: u128 = col6 % 0x1_0000_0000;
    let f7: u128 = col6 / 0x1_0000_0000;

    let lo: u128 = f0 + f1 * 0x1_0000_0000 + f2 * 0x1_0000_0000_0000_0000 + f3
        * 0x1_0000_0000_0000_0000_0000_0000;
    let hi: u128 = f4 + f5 * 0x1_0000_0000 + f6 * 0x1_0000_0000_0000_0000 + f7
        * 0x1_0000_0000_0000_0000_0000_0000;

    proof {
        lemma_pow_255_11();
        assert((pow(c as int, 5)) * pow(255, 11) == (hi as int)
            * 0x1_0000_0000_0000_0000_0000_0000_0000_0000int + lo as int);
    }

    let out: (u128, u128) = (hi, lo);
    out
}

/// The gamma-order test against a clamped raw channel strictly below one:
/// the quotient comparison decides it exactly, since the byte side is a
/// multiple of 2^128.
proof fn lemma_gamma_le_by_parts(b: int, c: int, q: int, r: int)
    requires
        0 <= b,
        q * 0x1_0000_0000_0000_0000_0000_0000_0000_0000 + r == pow(c, 5) * pow(255, 11),
        0 <= r < 0x1_0000_0000_0000_0000_0000_0000_0000_0000,
    ensures
        gamma_le_v(b, c) <==> (pow(b, 11) * 0x1_0000_0000 <= q),
        degamma_le_v(c, b) <==> (q < pow(b, 11) * 0x1_0000_0000 || (q == pow(b, 11)
            * 0x1_0000_0000 && r == 0)),
{
    let m = pow(b, 11) * 0x1_0000_0000;
    assert(pow(b, 11) * 0x1_0000_0000_0000_0000_0000_0000_0000_0000_0000_0000 == (pow(b, 11)
        * 0x1_0000_0000) * 0x1_0000_0000_0000_0000_0000_0000_0000_0000) by (nonlinear_arith);
    lemma_shifted_le(m, q, r);
    lemma_le_shifted(q, r, m);
}

/// Two raw channels decode the same byte to the same value.
proof fn lemma_degamma_unique(x: int, y1: int, y2: int)
    requires
        is_degamma(x, y1),
        is_degamma(x, y2),
    ensures
        y1 == y2,
{
    lemma_pow_255_11();
    if y1 < y2 {
        lemma_degamma_at_most(x, y1 + 1, y2);
    }
    if y2 < y1 {
        lemma_degamma_at_most(x, y2 + 1, y1);
    }
}

/// The gamma-encode test is antitone in the raw channel: a value below an
/// acceptable one is acceptable too.
proof fn lemma_degamma_at_most(x: int, y1: int, y2: int)
    requires
        0 <= y1 <= y2,
        degamma_le_v(y2, x),
    ensures
        degamma_le_v(y1, x),
{
    lemma_pow_base_monotone(y1, y2, 5nat);
    lemma_pow_nonneg(255, 11nat);
    vstd::arithmetic::mul::lemma_mul_inequality(pow(y1, 5), pow(y2, 5), pow(255, 11));
}

/// The searched byte never exceeds the search's starting point.
proof fn lemma_gamma_search_bounds(c: int, b: int)
    ensures
        0 <= gamma_search_v(c, b),
        b >= 0 ==> gamma_search_v(c, b) <= b,
    decreases b,
{
    if b > 0 {
        lemma_gamma_search_bounds(c, b - 1);
    }
}

/// A byte acceptable for a darker channel is acceptable for a brighter one.
proof fn lemma_gamma_le_monotone(b: int, c1: int, c2: int)
    requires
        0 <= c1 <= c2,
    ensures
        gamma_le_v(b, c1) ==> gamma_le_v(b, c2),
{
    lemma_pow_base_monotone(c1, c2, 5nat);
    lemma_pow_nonneg(255, 11nat);
    vstd::arithmetic::mul::lemma_mul_inequality(pow(c1, 5), pow(c2, 5), pow(255, 11));
}

/// The byte search is monotone in the channel.
proof fn lemma_gamma_search_monotone(b: int, c1: int, c2: int)
    requires
        0 <= c1 <= c2,
    ensures
        gamma_search_v(c1, b) <= gamma_search_v(c2, b),
    decreases b,
{
    if b > 0 {
        lemma_gamma_le_monotone(b, c1, c2);
        lemma_gamma_search_monotone(b - 1, c1, c2);
        lemma_gamma_search_bounds(c1, b - 1);
        lemma_gamma_search_bounds(c2, b - 1);
    }
}

/// No byte above zero suits a channel for which no byte is small enough.
proof fn lemma_gamma_search_none(c: int, b: int)
    requires
        forall|k: int| 0 < k <= b ==> !gamma_le_v(k, c),
    ensures
        gamma_search_v(c, b) == 0,
    decreases b,
{
    if b > 0 {
        lemma_gamma_search_none(c, b - 1);
    }
}

/// At the full displayable channel, byte 255 is acceptable in both
/// directions: `(2^32)^5 * 255^11` and `255^11 * 2^160` are the same number.
proof fn lemma_full_band()
    ensures
        gamma_le_v(255, SCALE as int),
        degamma_le_v(SCALE as int, 255),
{
    lemma_pow_2_32_5();
    assert(pow(255, 11) * 0x1_0000_0000_0000_0000_0000_0000_0000_0000_0000_0000 == pow(
        SCALE as int,
        5,
    ) * pow(255, 11)) by (nonlinear_arith)
        requires
            pow(SCALE as int, 5) == 0x1_0000_0000_0000_0000_0000_0000_0000_0000_0000_0000,
    ;
}

/// Tone mapping is non-decreasing channelwise: a brighter linear channel
/// never maps to a darker display byte, and neither does a higher alpha map
/// to a lower alpha byte.
pub proof fn lemma_tonemap_monotone(c1: int, c2: int)
    requires
        c1 <= c2,
    ensures
        gamma_byte_v(c1) <= gamma_byte_v(c2),
        alpha_byte_v(c1) <= alpha_byte_v(c2),
{
    let u1 = unit_clamp_v(c1);
    let u2 = unit_clamp_v(c2);
    assert(0 <= u1 <= u2 <= SCALE);
    lemma_gamma_search_monotone(255, u1, u2);
    assert(u1 * 255 <= u2 * 255) by (nonlinear_arith)
        requires
            u1 <= u2,
    ;
    vstd::arithmetic::div_mod::lemma_div_is_ordered(u1 * 255, u2 * 255, SCALE as int);
}

/// Tone mapping saturates at the ends of the displayable band: linear zero
/// maps to byte zero and linear one to byte 255, for color and alpha alike.
pub proof fn lemma_tonemap_saturates()
    ensures
        gamma_byte_v(0) == 0,
        gamma_byte_v(SCALE as int) == 255,
        alpha_byte_v(0) == 0,
        alpha_byte_v(SCALE as int) == 255,
{
    vstd::arithmetic::div_mod::lemma_div_of0(SCALE as int);

    // a zero channel accepts no byte above zero
    assert forall|k: int| 0 < k <= 255 implies !gamma_le_v(k, 0) by {
        vstd::arithmetic::power::lemma_pow_positive(k, 11);
        vstd::arithmetic::power::lemma0_pow(5);
        vstd::arithmetic::mul::lemma_mul_strictly_positive(
            pow(k, 11),
            0x1_0000_0000_0000_0000_0000_0000_0000_0000_0000_0000int,
        );
    }
    lemma_gamma_search_none(0, 255);

    // a full channel accepts byte 255
    lemma_full_band();

    // alpha is linear: 0 and SCALE * 255 / SCALE are the ends
    vstd::arithmetic::div_mod::lemma_div_multiples_vanish(255, SCALE as int);
    assert((SCALE as int) * 255 == 255 * (SCALE as int)) by (nonlinear_arith);
}

/// Gamma-encodes a linear channel to its display byte, testing each byte
/// against the full-precision raw channel.
fn gamma_encode_byte(c: Fx) -> (r: u8)
    ensures
        r as int == gamma_byte_v(c.raw as int),
{
    let cl = unit_clamp(c);
    if cl.raw == SCALE {
        proof {
            lemma_full_band();
        }
        return 255;
    }
    let parts = pow5_k_parts(cl.raw as u64);
    let q: u128 = parts.0;
    let rem: u128 = parts.1;
    let mut b: u64 = 255;
    loop
        invariant
            b <= 255,
            0 <= cl.raw < SCALE,
            cl.raw as int == unit_clamp_v(c.raw as int),
            (q as int) * 0x1_0000_0000_0000_0000_0000_0000_0000_0000 + rem as int == pow(
                cl.raw as int,
                5,
            ) * pow(255, 11),
            (rem as int) < 0x1_0000_0000_0000_0000_0000_0000_0000_0000int,
            gamma_search_v(cl.raw as int, 255) == gamma_search_v(cl.raw as int, b as int),
        decreases b,
    {
        let pb: u128 = pow11_u128(b);
        let m: u128 = pb * 0x1_0000_0000;
        proof {
            lemma_gamma_le_by_parts(b as int, cl.raw as int, q as int, rem as int);
        }
        if m <= q {
            return b as u8;
        }
        if b == 0 {
            return 0;
        }
        b = b - 1;
    }
}

/// Gamma-decodes a display byte to a linear channel at full raw precision:
/// the largest raw value in `[0, 1]` whose gamma encode stays within the
/// byte, found by binary search.
fn gamma_decode_raw(x: u8) -> (r: Fx)
    ensures
        r.raw as int == degamma_raw_v(x as int),
        0 <= r.raw <= SCALE,
{
    if x == 255 {
        proof {
            lemma_full_band();
            assert(is_degamma(255, SCALE as int));
            lemma_degamma_unique(255, SCALE as int, degamma_raw_v(255));
        }
        return Fx::one();
    }
    proof {
        // the bottom of the band is always acceptable, the top never is for
        // a darker byte
        vstd::arithmetic::power::lemma0_pow(5);
        lemma_pow_nonneg(x as int, 11nat);
        assert(0 <= pow(x as int, 11)
            * 0x1_0000_0000_0000_0000_0000_0000_0000_0000_0000_0000) by (nonlinear_arith)
            requires
                0 <= pow(x as int, 11),
        ;
        lemma_pow_2_32_5();
        lemma_pow_base_strict(x as int, 255, 11nat);
        lemma_pow_255_11();
        assert(pow(SCALE as int, 5) * pow(255, 11) > pow(x as int, 11)
            * 0x1_0000_0000_0000_0000_0000_0000_0000_0000_0000_0000) by (nonlinear_arith)
            requires
                pow(SCALE as int, 5)
                    == 0x1_0000_0000_0000_0000_0000_0000_0000_0000_0000_0000int,
                0 <= pow(x as int, 11) < pow(255, 11),
        ;
    }
    let px: u128 = pow11_u128(x as u64);
    let m: u128 = px * 0x1_0000_0000;
    let mut lo: u64 = 0;
    let mut hi: u64 = 0x1_0000_0000;
    while lo + 1 < hi
        invariant
            lo < hi <= 0x1_0000_0000,
            x < 255,
            m as int == pow(x as int, 11) * 0x1_0000_0000,
            degamma_le_v(lo as int, x as int),
            !degamma_le_v(hi as int, x as int),
        decreases hi - lo,
    {
        let mid: u64 = lo + (hi - lo) / 2;
        let parts = pow5_k_parts(mid);
        proof {
            lemma_gamma_le_by_parts(x as int, mid as int, parts.0 as int, parts.1 as int);
        }
        if parts.0 < m || (parts.0 == m && parts.1 == 0) {
            lo = mid;
        } else {
            hi = mid;
        }
    }
    proof {
        assert(is_degamma(x as int, lo as int));
        lemma_degamma_unique(x as int, lo as int, degamma_raw_v(x as int));
    }
    Fx { raw: lo as i64 }
}

/// Linearly encodes the alpha channel to its display byte.
fn alpha_encode_byte(a: Fx) -> (r: u8)
    ensures
        r as int == alpha_byte_v(a.raw as int),
{
    let cl = unit_clamp(a);
    let scaled: u64 = (cl.raw as u64) * 255;
    let q: u64 = scaled / (SCALE as u64);
    proof {
        assert((cl.raw as int) * 255 <= (SCALE as int) * 255) by (nonlinear_arith)
            requires
                0 <= cl.raw <= SCALE,
        ;
        vstd::arithmetic::div_mod::lemma_div_is_ordered(
            scaled as int,
            (SCALE as int) * 255,
            SCALE as int,
        );
        assert(((SCALE as int) * 255) / (SCALE as int) == 255) by {
            vstd::arithmetic::div_mod::lemma_div_multiples_vanish(255, SCALE as int);
        }
    }
    q as u8
}

impl LinearColor {
    pub fn from_channels(r: Fx, g: Fx, b: Fx, a: Fx) -> (res: LinearColor)
        ensures
            res == (LinearColor { r, g, b, a }),
    {
        LinearColor { r, g, b, a }
    }

    /// Photometric luminance of the color.
    /// Gamma-encodes the color channels, linearly encodes alpha, and packs
    /// the four display bytes.
    pub fn to_rgba(&self) -> (res: Rgba<u8>)
        ensures
            res.r as int == gamma_byte_v(self@.r),
            res.g as int == gamma_byte_v(self@.g),
            res.b as int == gamma_byte_v(self@.b),
            res.a as int == alpha_byte_v(self@.a),
    {
        Rgba::from_channels(
            gamma_encode_byte(self.r),
            gamma_encode_byte(self.g),
            gamma_encode_byte(self.b),
            alpha_encode_byte(self.a),
        )
    }

    /// Gamma-decodes the color channels of a display pixel and linearly
    /// decodes its alpha.
    pub fn from_rgba(rgba: Rgba<u8>) -> (res: LinearColor)
        ensures
            res@.r == degamma_raw_v(rgba.r as int),
            res@.g == degamma_raw_v(rgba.g as int),
            res@.b == degamma_raw_v(rgba.b as int),
            res@.a == alpha_raw_v(rgba.a as int),
    {
        LinearColor {
            r: gamma_decode_raw(rgba.r),
            g: gamma_decode_raw(rgba.g),
            b: gamma_decode_raw(rgba.b),
            a: Fx::whole(rgba.a as i32).div(Fx::whole(255)),
        }
    }

    pub fn luminance(&self) -> (res: Fx)
        ensures
            res.raw as int == c4_luminance(self@),
    {
        self.b.mul(Fx::from_raw(LUMA_B)).add(self.r.mul(Fx::from_raw(LUMA_R))).add(
            self.g.mul(Fx::from_raw(LUMA_G)),
        )
    }

    /// Reinhard tone curve, `c / (1 + c)` on each color channel.
    pub fn reinhard(&self) -> (res: LinearColor)
        ensures
            res@ == (C4 {
                r: reinhard_v(self@.r),
                g: reinhard_v(self@.g),
                b: reinhard_v(self@.b),
                a: self@.a,
            }),
    {
        LinearColor {
            r: self.r.div(Fx::one().add(self.r)),
            g: self.g.div(Fx::one().add(self.g)),
            b: self.b.div(Fx::one().add(self.b)),
            a: self.a,
        }
    }

    /// Extended Reinhard tone curve with a white point.
    pub fn reinhard_extended(&self, max_white: Fx) -> (res: LinearColor)
        ensures
            res@ == (C4 {
                r: reinhard_ext_v(self@.r, max_white.raw as int),
                g: reinhard_ext_v(self@.g, max_white.raw as int),
                b: reinhard_ext_v(self@.b, max_white.raw as int),
                a: self@.a,
            }),
    {
        let mw2 = max_white.mul(max_white);
        LinearColor {
            r: self.r.mul(Fx::one().add(self.r.div(mw2))).div(Fx::one().add(self.r)),
            g: self.g.mul(Fx::one().add(self.g.div(mw2))).div(Fx::one().add(self.g)),
            b: self.b.mul(Fx::one().add(self.b.div(mw2))).div(Fx::one().add(self.b)),
            a: self.a,
        }
    }

    /// Color-scalar multiplication; alpha is kept.
    pub fn mul(self, s: Fx) -> (res: LinearColor)
        ensures
            res@ == c4_scale(self@, s.raw as int),
    {
        LinearColor::from_channels(self.r.mul(s), self.g.mul(s), self.b.mul(s), self.a)
    }

    /// Color addition; the left alpha is kept.
    pub fn add(self, rhs: LinearColor) -> (res: LinearColor)
        ensures
            res@ == c4_add(self@, rhs@),
    {
        LinearColor::from_channels(self.r.add(rhs.r), self.g.add(rhs.g), self.b.add(rhs.b), self.a)
    }
}

impl Default for LinearColor {
    /// Black with alpha one.
    fn default() -> (res: LinearColor)
        ensures
            res@ == c4_default(),
    {
        LinearColor::from_channels(Fx::zero(), Fx::zero(), Fx::zero(), Fx::one())
    }
}

} // verus!
