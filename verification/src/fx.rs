//! Binary fixed-point scalars.
//!
//! A scalar is stored as a signed 64-bit count of 1/2^32 steps, so one whole
//! unit is `SCALE` raw steps. Every operation is total: the exact result is
//! computed in 128 bits and then clipped to the representable band
//! `[-FX_MAX_RAW, FX_MAX_RAW]`, which plays the role the infinities play for
//! floating point. Each operation's contract states the returned raw count
//! exactly, via the `fx_*_v` spec functions, so arithmetic done on `Fx`
//! values is reproducible and fully characterised.

use vstd::prelude::*;

verus! {

/// Raw steps per unit: 2^32.
pub const SCALE: i64 = 0x1_0000_0000;

/// Largest representable magnitude, in raw steps: 2^62.
pub const FX_MAX_RAW: i64 = 0x4000_0000_0000_0000;

/// A fixed-point scalar; the value is `raw / SCALE`.
#[derive(Clone, Copy, Debug, PartialEq, Eq, Structural)]
pub struct Fx {
    pub raw: i64,
}

/// Magnitude of a mathematical integer.
pub open spec fn abs_i(v: int) -> int {
    if v >= 0 {
        v
    } else {
        -v
    }
}

/// Clips an exact raw result to the representable band.
pub open spec fn fx_clip(v: int) -> int {
    if v > FX_MAX_RAW as int {
        FX_MAX_RAW as int
    } else if v < -(FX_MAX_RAW as int) {
        -(FX_MAX_RAW as int)
    } else {
        v
    }
}

/// Quotient rounded toward zero, the rounding `Fx` multiplication and
/// division use.
pub open spec fn tdiv(p: int, d: int) -> int {
    if (p >= 0) == (d >= 0) {
        abs_i(p) / abs_i(d)
    } else {
        -(abs_i(p) / abs_i(d))
    }
}

pub open spec fn fx_add_v(a: int, b: int) -> int {
    fx_clip(a + b)
}

pub open spec fn fx_sub_v(a: int, b: int) -> int {
    fx_clip(a - b)
}

pub open spec fn fx_neg_v(a: int) -> int {
    fx_clip(-a)
}

pub open spec fn fx_mul_v(a: int, b: int) -> int {
    fx_clip(tdiv(a * b, SCALE as int))
}

/// Division; a zero divisor saturates with the sign of the dividend, the
/// fixed-point stand-in for the infinities of float division.
pub open spec fn fx_div_v(a: int, b: int) -> int {
    if b == 0 {
        if a > 0 {
            FX_MAX_RAW as int
        } else if a < 0 {
            -(FX_MAX_RAW as int)
        } else {
            0
        }
    } else {
        fx_clip(tdiv(a * SCALE, b))
    }
}

pub open spec fn fx_abs_v(a: int) -> int {
    fx_clip(abs_i(a))
}

pub open spec fn fx_min_v(a: int, b: int) -> int {
    if a <= b {
        a
    } else {
        b
    }
}

pub open spec fn fx_max_v(a: int, b: int) -> int {
    if a >= b {
        a
    } else {
        b
    }
}

/// `r` is the integer square root of `n`.
pub open spec fn is_isqrt(n: int, r: int) -> bool {
    0 <= r && r * r <= n && n < (r + 1) * (r + 1)
}

pub open spec fn isqrt_v(n: int) -> int {
    choose|r: int| is_isqrt(n, r)
}

/// Square root; nonpositive inputs (where the real root is 0 or undefined)
/// give 0. `sqrt(raw/SCALE) == isqrt(raw*SCALE)/SCALE` up to rounding down.
pub open spec fn fx_sqrt_v(a: int) -> int {
    if a <= 0 {
        0
    } else {
        isqrt_v(a * SCALE)
    }
}

/// The raw count standing for the whole number `i`.
pub open spec fn fx_whole_v(i: int) -> int {
    fx_clip(i * SCALE)
}

/// Whether a raw value lies in the representable band; every `fx_*_v` result
/// does.
pub open spec fn fx_in_band(v: int) -> bool {
    -(FX_MAX_RAW as int) <= v <= FX_MAX_RAW as int
}

/// Clipping is an odd function.
pub proof fn lemma_clip_odd(v: int)
    ensures
        fx_clip(-v) == -fx_clip(v),
{
}

/// Rounding toward zero is an odd function of the dividend.
pub proof fn lemma_tdiv_neg(p: int, d: int)
    requires
        d > 0,
    ensures
        tdiv(-p, d) == -tdiv(p, d),
{
    if p == 0 {
        vstd::arithmetic::div_mod::lemma_div_of0(d);
    }
}

/// Negating one factor negates a product.
pub proof fn lemma_mul_neg(a: int, b: int)
    requires
        fx_in_band(b),
    ensures
        fx_mul_v(a, fx_neg_v(b)) == fx_neg_v(fx_mul_v(a, b)),
        fx_in_band(fx_mul_v(a, b)),
{
    assert(fx_neg_v(b) == -b);
    assert(a * (-b) == -(a * b)) by (nonlinear_arith);
    lemma_tdiv_neg(a * b, SCALE as int);
    lemma_clip_odd(tdiv(a * b, SCALE as int));
}

/// Negating both addends negates a clipped sum.
pub proof fn lemma_add_neg(a: int, b: int)
    ensures
        fx_add_v(-a, -b) == -fx_add_v(a, b),
        fx_in_band(fx_add_v(a, b)),
{
    lemma_clip_odd(a + b);
}

/// Multiplying by zero gives zero.
pub proof fn lemma_mul_zero(x: int)
    ensures
        fx_mul_v(x, 0) == 0,
        fx_mul_v(0, x) == 0,
{
    vstd::arithmetic::div_mod::lemma_div_of0(SCALE as int);
    assert(x * 0 == 0) by (nonlinear_arith);
    assert(0 * x == 0) by (nonlinear_arith);
}

/// Multiplying a representable nonnegative value by one is exact.
pub proof fn lemma_mul_one(x: int)
    requires
        0 <= x <= FX_MAX_RAW,
    ensures
        fx_mul_v(x, SCALE as int) == x,
        fx_mul_v(SCALE as int, x) == x,
{
    assert(x * SCALE == SCALE * x) by (nonlinear_arith);
    assert(x * SCALE >= 0) by (nonlinear_arith)
        requires
            x >= 0,
    ;
    vstd::arithmetic::div_mod::lemma_div_multiples_vanish(x, SCALE as int);
    assert(abs_i(x * (SCALE as int)) / abs_i(SCALE as int) == x);
}

/// A quotient whose dividend magnitude is at most the divisor lies within
/// one.
pub proof fn lemma_div_within_one(a: int, b: int)
    requires
        0 < b,
        abs_i(a) <= b,
    ensures
        -(SCALE as int) <= fx_div_v(a, b) <= SCALE as int,
{
    let m = abs_i(a) * (SCALE as int);
    assert(0 <= abs_i(a) * (SCALE as int) <= b * (SCALE as int)) by (nonlinear_arith)
        requires
            0 <= abs_i(a) <= b,
            0 < SCALE as int,
    ;
    vstd::arithmetic::div_mod::lemma_div_is_ordered(m, b * (SCALE as int), b);
    vstd::arithmetic::div_mod::lemma_div_multiples_vanish(SCALE as int, b);
    assert(b * (SCALE as int) == (SCALE as int) * b) by (nonlinear_arith);
    vstd::arithmetic::div_mod::lemma_div_pos_is_pos(m, b);
    assert(abs_i(a * SCALE) == abs_i(a) * (SCALE as int)) by (nonlinear_arith);
}

/// The square of a value within one lies between zero and one.
pub proof fn lemma_square_within_one(a: int)
    requires
        -(SCALE as int) <= a <= SCALE as int,
    ensures
        0 <= fx_mul_v(a, a) <= SCALE as int,
{
    assert(0 <= a * a <= (SCALE as int) * (SCALE as int)) by (nonlinear_arith)
        requires
            -(SCALE as int) <= a <= SCALE as int,
    ;
    assert((SCALE as int) * (SCALE as int) == (SCALE as int) * (SCALE as int));
    vstd::arithmetic::div_mod::lemma_div_is_ordered(
        a * a,
        (SCALE as int) * (SCALE as int),
        SCALE as int,
    );
    vstd::arithmetic::div_mod::lemma_div_multiples_vanish(SCALE as int, SCALE as int);
    vstd::arithmetic::div_mod::lemma_div_pos_is_pos(a * a, SCALE as int);
    assert(abs_i(a * a) == a * a) by (nonlinear_arith);
}

/// The integer square root is unique, so `isqrt_v` names exactly the value a
/// search procedure finds.
pub proof fn lemma_isqrt_unique(n: int, r1: int, r2: int)
    requires
        is_isqrt(n, r1),
        is_isqrt(n, r2),
    ensures
        r1 == r2,
{
    if r1 < r2 {
        assert((r1 + 1) * (r1 + 1) <= r2 * r2) by (nonlinear_arith)
            requires
                0 <= r1,
                r1 + 1 <= r2,
        ;
    }
    if r2 < r1 {
        assert((r2 + 1) * (r2 + 1) <= r1 * r1) by (nonlinear_arith)
            requires
                0 <= r2,
                r2 + 1 <= r1,
        ;
    }
}

/// Magnitude of a signed 64-bit value, widened so `i64::MIN` is no trouble.
fn abs_u64(a: i64) -> (r: u64)
    ensures
        r as int == abs_i(a as int),
{
    if a >= 0 {
        a as u64
    } else {
        (-(a as i128)) as u64
    }
}

/// Clips an exact 128-bit raw result into the representable band.
fn clip_i128(v: i128) -> (r: i64)
    ensures
        r as int == fx_clip(v as int),
{
    if v > FX_MAX_RAW as i128 {
        FX_MAX_RAW
    } else if v < -(FX_MAX_RAW as i128) {
        -FX_MAX_RAW
    } else {
        v as i64
    }
}

impl Fx {
    pub fn zero() -> (r: Fx)
        ensures
            r.raw == 0,
    {
        Fx { raw: 0 }
    }

    pub fn one() -> (r: Fx)
        ensures
            r.raw == SCALE,
    {
        Fx { raw: SCALE }
    }

    /// Builds a scalar from a raw step count, clipped into the band.
    pub fn from_raw(raw: i64) -> (r: Fx)
        ensures
            r.raw as int == fx_clip(raw as int),
    {
        if raw > FX_MAX_RAW {
            Fx { raw: FX_MAX_RAW }
        } else if raw < -FX_MAX_RAW {
            Fx { raw: -FX_MAX_RAW }
        } else {
            Fx { raw }
        }
    }

    /// The scalar standing for a whole number.
    pub fn whole(i: i32) -> (r: Fx)
        ensures
            r.raw as int == fx_whole_v(i as int),
    {
        proof {
            assert((i as int) * (SCALE as int) < 0x8000_0000_0000_0000_0000_0000_0000_0000int
                && (i as int) * (SCALE as int) >= -0x8000_0000_0000_0000_0000_0000_0000_0000int)
                by (nonlinear_arith)
                requires
                    -0x8000_0000int <= i <= 0x8000_0000int,
            ;
        }
        clip_to_fx((i as i128) * (SCALE as i128))
    }

    /// The scalar standing for the fraction `n / d`.
    pub fn from_ratio(n: i32, d: i32) -> (r: Fx)
        ensures
            r.raw as int == fx_div_v(fx_whole_v(n as int), fx_whole_v(d as int)),
    {
        Fx::whole(n).div(Fx::whole(d))
    }

    pub fn add(self, o: Fx) -> (r: Fx)
        ensures
            r.raw as int == fx_add_v(self.raw as int, o.raw as int),
    {
        clip_to_fx(self.raw as i128 + o.raw as i128)
    }

    pub fn sub(self, o: Fx) -> (r: Fx)
        ensures
            r.raw as int == fx_sub_v(self.raw as int, o.raw as int),
    {
        clip_to_fx(self.raw as i128 - o.raw as i128)
    }

    pub fn neg(self) -> (r: Fx)
        ensures
            r.raw as int == fx_neg_v(self.raw as int),
    {
        clip_to_fx(-(self.raw as i128))
    }

    pub fn mul(self, o: Fx) -> (r: Fx)
        ensures
            r.raw as int == fx_mul_v(self.raw as int, o.raw as int),
    {
        let a: i64 = self.raw;
        let b: i64 = o.raw;
        let aa: u64 = abs_u64(a);
        let bb: u64 = abs_u64(b);
        proof {
            lemma_u64_product_fits(aa as int, bb as int);
        }
        let m: u128 = (aa as u128) * (bb as u128);
        let q: u128 = m / (SCALE as u128);
        proof {
            lemma_abs_product(a as int, b as int);
            assert(q as int == abs_i((a as int) * (b as int)) / (SCALE as int));
        }
        signed_clip(q, (a < 0) != (b < 0))
    }

    pub fn div(self, o: Fx) -> (r: Fx)
        ensures
            r.raw as int == fx_div_v(self.raw as int, o.raw as int),
    {
        let a: i64 = self.raw;
        let b: i64 = o.raw;
        if b == 0 {
            if a > 0 {
                Fx { raw: FX_MAX_RAW }
            } else if a < 0 {
                Fx { raw: -FX_MAX_RAW }
            } else {
                Fx { raw: 0 }
            }
        } else {
            let aa: u64 = abs_u64(a);
            let bb: u64 = abs_u64(b);
            proof {
                lemma_u64_product_fits(aa as int, SCALE as int);
            }
            let m: u128 = (aa as u128) * (SCALE as u128);
            let q: u128 = m / (bb as u128);
            proof {
                lemma_abs_product(a as int, SCALE as int);
                assert(q as int == abs_i((a as int) * (SCALE as int)) / abs_i(b as int));
            }
            signed_clip(q, (a < 0) != (b < 0))
        }
    }

    /// Reciprocal: `1 / self`.
    pub fn recip(self) -> (r: Fx)
        ensures
            r.raw as int == fx_div_v(SCALE as int, self.raw as int),
    {
        Fx::one().div(self)
    }

    pub fn abs(self) -> (r: Fx)
        ensures
            r.raw as int == fx_abs_v(self.raw as int),
    {
        if self.raw >= 0 {
            clip_to_fx(self.raw as i128)
        } else {
            clip_to_fx(-(self.raw as i128))
        }
    }

    pub fn min(self, o: Fx) -> (r: Fx)
        ensures
            r.raw as int == fx_min_v(self.raw as int, o.raw as int),
    {
        if self.raw <= o.raw {
            self
        } else {
            o
        }
    }

    pub fn max(self, o: Fx) -> (r: Fx)
        ensures
            r.raw as int == fx_max_v(self.raw as int, o.raw as int),
    {
        if self.raw >= o.raw {
            self
        } else {
            o
        }
    }

    pub fn lt(self, o: Fx) -> (r: bool)
        ensures
            r == (self.raw < o.raw),
    {
        self.raw < o.raw
    }

    pub fn le(self, o: Fx) -> (r: bool)
        ensures
            r == (self.raw <= o.raw),
    {
        self.raw <= o.raw
    }

    /// Square root by binary search on the raw step count.
    pub fn sqrt(self) -> (r: Fx)
        ensures
            r.raw as int == fx_sqrt_v(self.raw as int),
            self.raw > 0 ==> is_isqrt((self.raw as int) * (SCALE as int), r.raw as int),
    {
        if self.raw <= 0 {
            return Fx { raw: 0 };
        }
        let n: u128 = (self.raw as u128) * (SCALE as u128);
        proof {
            assert((self.raw as int) * (SCALE as int) < 0x1_0000_0000_0000u128 * 0x1_0000_0000_0000u128)
                by (nonlinear_arith)
                requires
                    0 < self.raw <= 0x8000_0000_0000_0000i128,
            ;
        }
        let mut lo: u128 = 0;
        let mut hi: u128 = 0x1_0000_0000_0000;
        while hi - lo > 1
            invariant
                lo < hi <= 0x1_0000_0000_0000,
                (lo as int) * (lo as int) <= n as int,
                (n as int) < (hi as int) * (hi as int),
            decreases hi - lo,
        {
            let mid: u128 = lo + (hi - lo) / 2;
            proof {
                assert((mid as int) * (mid as int) < 0x1_0000_0000_0000_0000_0000_0000_0000_0000int)
                    by (nonlinear_arith)
                    requires
                        mid <= 0x1_0000_0000_0000u128,
                ;
            }
            if mid * mid <= n {
                lo = mid;
            } else {
                hi = mid;
            }
        }
        proof {
            assert(is_isqrt(n as int, lo as int));
            lemma_isqrt_unique(n as int, lo as int, isqrt_v(n as int));
        }
        Fx { raw: lo as i64 }
    }
}

/// Two unsigned 64-bit magnitudes multiply without reaching 2^128.
proof fn lemma_u64_product_fits(a: int, b: int)
    requires
        0 <= a <= 0xFFFF_FFFF_FFFF_FFFFu64,
        0 <= b <= 0xFFFF_FFFF_FFFF_FFFFu64,
    ensures
        a * b < 0x1_0000_0000_0000_0000_0000_0000_0000_0000int,
{
    assert(a * b < 0x1_0000_0000_0000_0000_0000_0000_0000_0000int) by (nonlinear_arith)
        requires
            0 <= a <= 0xFFFF_FFFF_FFFF_FFFFu64,
            0 <= b <= 0xFFFF_FFFF_FFFF_FFFFu64,
    ;
}

/// The magnitude of a product is the product of the magnitudes.
proof fn lemma_abs_product(a: int, b: int)
    ensures
        abs_i(a * b) == abs_i(a) * abs_i(b),
        (a * b >= 0) == (a == 0 || b == 0 || (a >= 0) == (b >= 0)),
{
    assert(abs_i(a * b) == abs_i(a) * abs_i(b) && (a * b >= 0) == (a == 0 || b == 0 || (a >= 0)
        == (b >= 0))) by (nonlinear_arith);
}

/// Clips and converts an exact 128-bit result.
fn clip_to_fx(v: i128) -> (r: Fx)
    ensures
        r.raw as int == fx_clip(v as int),
{
    Fx { raw: clip_i128(v) }
}

/// Applies a sign to an unsigned rounded quotient, then clips.
fn signed_clip(q: u128, neg: bool) -> (r: Fx)
    ensures
        neg ==> r.raw as int == fx_clip(-(q as int)),
        !neg ==> r.raw as int == fx_clip(q as int),
{
    if neg {
        if q > FX_MAX_RAW as u128 {
            Fx { raw: -FX_MAX_RAW }
        } else {
            Fx { raw: -((q as i64)) }
        }
    } else {
        if q > FX_MAX_RAW as u128 {
            Fx { raw: FX_MAX_RAW }
        } else {
            Fx { raw: q as i64 }
        }
    }
}

} // verus!
