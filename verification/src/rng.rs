//! A small deterministic pseudo-random generator.
//!
//! The renderer draws all of its randomness from this generator, keyed from a
//! root seed (and, per pixel, from the pixel coordinates), so a seeded render
//! is a pure function of its inputs. The step function is the additive-state,
//! xor-shift-multiply mixer known as splitmix: its whole behaviour is the few
//! lines of `sm_bump` and `sm_output` below, stated exactly.

use crate::fx::{fx_mul_v, fx_sub_v, Fx, SCALE};
use crate::geo::vec3::{v3_add, v3_len_squared, v3_scale, Vec3, V3};
use vstd::prelude::*;

verus! {

/// Product truncated to 64 bits.
pub open spec fn sm_mul(a: u64, b: u64) -> u64 {
    (((a as int) * (b as int)) % 0x1_0000_0000_0000_0000int) as u64
}

/// Sum truncated to 64 bits.
pub open spec fn sm_add(a: u64, b: u64) -> u64 {
    (((a as int) + (b as int)) % 0x1_0000_0000_0000_0000int) as u64
}

/// State advance: one additive step of the golden-ratio increment.
pub open spec fn sm_bump(s: u64) -> u64 {
    sm_add(s, 0x9E3779B97F4A7C15)
}

/// Output mix: two xor-shift-multiply rounds and a final xor-shift.
/// Opaque so that callers treat the stream as an unanalysed function of the
/// state; `next_u64` reveals it.
#[verifier::opaque]
pub open spec fn sm_output(s: u64) -> u64 {
    let z1 = sm_mul(s ^ (s >> 30), 0xBF58476D1CE4E5B9);
    let z2 = sm_mul(z1 ^ (z1 >> 27), 0x94D049BB133111EB);
    z2 ^ (z2 >> 31)
}

/// The word one call of `next_u64` returns on state `s`.
pub open spec fn rng_word(s: u64) -> u64 {
    sm_output(sm_bump(s))
}

/// The raw scalar in `[0, 1)` one call of `next_unit` returns on state `s`:
/// the top 32 bits of the next word.
pub open spec fn rng_unit(s: u64) -> int {
    (rng_word(s) >> 32) as int
}

/// The state a generator keyed from `seed` and a pixel coordinate starts in.
pub open spec fn rng_key(seed: u64, i: u64, j: u64) -> u64 {
    sm_bump(sm_output(sm_bump(seed ^ sm_mul(i, 0x9E3779B97F4A7C15))) ^ sm_mul(
        j,
        0xBF58476D1CE4E5B9,
    ))
}

/// A deterministic pseudo-random generator; equal states give equal streams.
#[derive(Clone, Copy, Debug, PartialEq, Eq, Structural)]
pub struct Rng {
    pub state: u64,
}

impl Rng {
    /// A generator seeded directly.
    pub fn new(seed: u64) -> (r: Rng)
        ensures
            r.state == seed,
    {
        Rng { state: seed }
    }

    /// A generator keyed from a root seed and a pixel coordinate, so each
    /// pixel's stream is independent of the order pixels are visited in.
    pub fn keyed(seed: u64, i: u64, j: u64) -> (r: Rng)
        ensures
            r.state == rng_key(seed, i, j),
    {
        let a = mul_wrap(i, 0x9E3779B97F4A7C15);
        let b = mul_wrap(j, 0xBF58476D1CE4E5B9);
        let mut g = Rng { state: seed ^ a };
        let w: u64 = g.next_u64();
        Rng { state: w ^ b }.bumped()
    }

    /// Advances the state by one step without drawing.
    fn bumped(self) -> (r: Rng)
        ensures
            r.state == sm_bump(self.state),
    {
        Rng { state: add_wrap(self.state, 0x9E3779B97F4A7C15) }
    }

    /// Draws the next 64-bit word.
    pub fn next_u64(&mut self) -> (r: u64)
        ensures
            final(self).state == sm_bump(old(self).state),
            r == rng_word(old(self).state),
    {
        proof {
            reveal(sm_output);
        }
        self.state = add_wrap(self.state, 0x9E3779B97F4A7C15);
        let s: u64 = self.state;
        let z1: u64 = mul_wrap(s ^ (s >> 30), 0xBF58476D1CE4E5B9);
        let z2: u64 = mul_wrap(z1 ^ (z1 >> 27), 0x94D049BB133111EB);
        z2 ^ (z2 >> 31)
    }

    /// Draws a scalar uniform over the representable values of `[0, 1)`.
    pub fn next_unit(&mut self) -> (r: Fx)
        ensures
            final(self).state == sm_bump(old(self).state),
            r.raw as int == rng_unit(old(self).state),
            0 <= r.raw < SCALE,
    {
        let w: u64 = self.next_u64();
        let top: u64 = w >> 32;
        proof {
            assert(w >> 32 < 0x1_0000_0000u64) by (bit_vector);
        }
        Fx { raw: top as i64 }
    }
}

/// Wrapping 64-bit sum via a 128-bit intermediate.
fn add_wrap(a: u64, b: u64) -> (r: u64)
    ensures
        r == sm_add(a, b),
{
    let t: u128 = a as u128 + b as u128;
    (t % 0x1_0000_0000_0000_0000u128) as u64
}

/// Wrapping 64-bit product via a 128-bit intermediate.
fn mul_wrap(a: u64, b: u64) -> (r: u64)
    ensures
        r == sm_mul(a, b),
{
    proof {
        lemma_u64_mul_fits(a as int, b as int);
    }
    let t: u128 = (a as u128) * (b as u128);
    (t % 0x1_0000_0000_0000_0000u128) as u64
}

proof fn lemma_u64_mul_fits(a: int, b: int)
    requires
        0 <= a <= 0xFFFF_FFFF_FFFF_FFFFu64,
        0 <= b <= 0xFFFF_FFFF_FFFF_FFFFu64,
    ensures
        0 <= a * b < 0x1_0000_0000_0000_0000_0000_0000_0000_0000int,
{
    assert(0 <= a * b < 0x1_0000_0000_0000_0000_0000_0000_0000_0000int) by (nonlinear_arith)
        requires
            0 <= a <= 0xFFFF_FFFF_FFFF_FFFFu64,
            0 <= b <= 0xFFFF_FFFF_FFFF_FFFFu64,
    ;
}

/// One candidate point for rejection sampling: three unit draws mapped
/// affinely onto the cube `[-1, 1]^3`, and the state after the draws.
/// Opaque: callers treat a candidate as an unanalysed function of the state;
/// `cube_candidate` reveals it.
#[verifier::opaque]
pub open spec fn cube_sample(s: u64) -> (V3, u64) {
    let s1 = sm_bump(s);
    let s2 = sm_bump(s1);
    let s3 = sm_bump(s2);
    let v = V3 { x: rng_unit(s), y: rng_unit(s1), z: rng_unit(s2) };
    (v3_add(v3_scale(v, 2 * SCALE), V3 { x: -(SCALE as int), y: -(SCALE as int), z: -(SCALE as int) }), s3)
}

/// The vector bounded rejection sampling returns from state `s` with `fuel`
/// retries left: the first candidate of squared length at most one, or the
/// zero vector when every try was rejected.
pub open spec fn unit_sphere_sample(s: u64, fuel: nat) -> (V3, u64)
    decreases fuel,
{
    let (v, s3) = cube_sample(s);
    if v3_len_squared(v) <= SCALE {
        (v, s3)
    } else if fuel == 0 {
        (V3 { x: 0, y: 0, z: 0 }, s3)
    } else {
        unit_sphere_sample(s3, (fuel - 1) as nat)
    }
}

/// How many rejected candidates `random_in_unit_sphere` tolerates before it
/// falls back to the zero vector; each try is accepted with probability about
/// one half.
pub const SPHERE_SAMPLE_TRIES: u32 = 32;

/// Draws a vector inside the unit sphere by bounded rejection sampling over
/// the cube `[-1, 1]^3`.
/// Draws one candidate: three unit draws mapped onto the cube `[-1, 1]^3`.
fn cube_candidate(rng: &mut Rng) -> (r: Vec3)
    ensures
        (r@, final(rng).state) == cube_sample(old(rng).state),
{
    proof {
        reveal(cube_sample);
    }
    let u1 = rng.next_unit();
    let u2 = rng.next_unit();
    let u3 = rng.next_unit();
    Vec3::new(u1, u2, u3).scale(Fx::whole(2)).add(
        Vec3::new(Fx::whole(-1), Fx::whole(-1), Fx::whole(-1)),
    )
}

/// Draws a vector inside the unit sphere by bounded rejection sampling over
/// the cube `[-1, 1]^3`.
#[verifier::rlimit(60)]
pub fn random_in_unit_sphere(rng: &mut Rng) -> (r: Vec3)
    ensures
        (r@, final(rng).state) == unit_sphere_sample(old(rng).state, SPHERE_SAMPLE_TRIES as nat),
        v3_len_squared(r@) <= SCALE,
{
    let ghost orig: u64 = rng.state;
    let mut fuel: u32 = SPHERE_SAMPLE_TRIES;
    loop
        invariant
            orig == old(rng).state,
            fuel <= SPHERE_SAMPLE_TRIES,
            unit_sphere_sample(orig, SPHERE_SAMPLE_TRIES as nat) == unit_sphere_sample(
                rng.state,
                fuel as nat,
            ),
        decreases fuel,
    {
        let ghost s_prev: u64 = rng.state;
        let v = cube_candidate(rng);
        if v.len_squared().le(Fx::one()) {
            proof {
                assert(unit_sphere_sample(s_prev, fuel as nat) == (v@, rng.state));
            }
            return v;
        }
        if fuel == 0 {
            proof {
                assert(unit_sphere_sample(s_prev, 0nat) == (
                    V3 { x: 0, y: 0, z: 0 },
                    rng.state,
                ));
            }
            return Vec3::new(Fx::zero(), Fx::zero(), Fx::zero());
        }
        proof {
            assert(unit_sphere_sample(s_prev, fuel as nat) == unit_sphere_sample(
                rng.state,
                (fuel - 1) as nat,
            ));
        }
        fuel = fuel - 1;
    }
}

} // verus!
