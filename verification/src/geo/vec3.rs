//! Three-dimensional vectors over the fixed-point scalar.

use crate::fx::{fx_add_v, fx_div_v, fx_mul_v, fx_neg_v, fx_sqrt_v, fx_sub_v, Fx, SCALE};
use vstd::prelude::*;

verus! {

/// A 3-dimensional vector.
#[derive(Clone, Copy, Debug, PartialEq, Eq, Structural)]
pub struct Vec3 {
    pub x: Fx,
    pub y: Fx,
    pub z: Fx,
}

/// The mathematical image of a vector or point: its three raw coordinates.
#[verifier::ext_equal]
pub ghost struct V3 {
    pub x: int,
    pub y: int,
    pub z: int,
}

impl View for Vec3 {
    type V = V3;

    open spec fn view(&self) -> V3 {
        V3 { x: self.x.raw as int, y: self.y.raw as int, z: self.z.raw as int }
    }
}

pub open spec fn v3(x: int, y: int, z: int) -> V3 {
    V3 { x, y, z }
}

pub open spec fn v3_add(a: V3, b: V3) -> V3 {
    V3 { x: fx_add_v(a.x, b.x), y: fx_add_v(a.y, b.y), z: fx_add_v(a.z, b.z) }
}

pub open spec fn v3_sub(a: V3, b: V3) -> V3 {
    V3 { x: fx_sub_v(a.x, b.x), y: fx_sub_v(a.y, b.y), z: fx_sub_v(a.z, b.z) }
}

pub open spec fn v3_neg(a: V3) -> V3 {
    V3 { x: fx_neg_v(a.x), y: fx_neg_v(a.y), z: fx_neg_v(a.z) }
}

pub open spec fn v3_scale(a: V3, s: int) -> V3 {
    V3 { x: fx_mul_v(a.x, s), y: fx_mul_v(a.y, s), z: fx_mul_v(a.z, s) }
}

/// Dot product, summed left to right as the executable code does.
pub open spec fn v3_dot(a: V3, b: V3) -> int {
    fx_add_v(fx_add_v(fx_mul_v(a.x, b.x), fx_mul_v(a.y, b.y)), fx_mul_v(a.z, b.z))
}

/// Right-handed cross product.
pub open spec fn v3_cross(a: V3, b: V3) -> V3 {
    V3 {
        x: fx_sub_v(fx_mul_v(a.y, b.z), fx_mul_v(a.z, b.y)),
        y: fx_sub_v(fx_mul_v(a.z, b.x), fx_mul_v(a.x, b.z)),
        z: fx_sub_v(fx_mul_v(a.x, b.y), fx_mul_v(a.y, b.x)),
    }
}

pub open spec fn v3_len_squared(a: V3) -> int {
    v3_dot(a, a)
}

pub open spec fn v3_len(a: V3) -> int {
    fx_sqrt_v(v3_len_squared(a))
}

/// `a / |a|`, computed as a scale by the reciprocal of the length.
pub open spec fn v3_normalized(a: V3) -> V3 {
    v3_scale(a, fx_div_v(SCALE as int, v3_len(a)))
}

/// `(1 - t) * v1 + t * v2`, componentwise.
pub open spec fn v3_lerp(a: V3, b: V3, t: int) -> V3 {
    v3_add(v3_scale(a, fx_sub_v(SCALE as int, t)), v3_scale(b, t))
}

/// Whether each coordinate lies in the representable band; the view of every
/// constructed vector does.
pub open spec fn v3_in_band(a: V3) -> bool {
    crate::fx::fx_in_band(a.x) && crate::fx::fx_in_band(a.y) && crate::fx::fx_in_band(a.z)
}

/// Negating one side negates a dot product: `a . (-b) == -(a . b)`.
pub proof fn lemma_dot_neg(a: V3, b: V3)
    requires
        v3_in_band(b),
    ensures
        v3_dot(a, v3_neg(b)) == fx_neg_v(v3_dot(a, b)),
        crate::fx::fx_in_band(v3_dot(a, b)),
{
    crate::fx::lemma_mul_neg(a.x, b.x);
    crate::fx::lemma_mul_neg(a.y, b.y);
    crate::fx::lemma_mul_neg(a.z, b.z);
    crate::fx::lemma_add_neg(fx_mul_v(a.x, b.x), fx_mul_v(a.y, b.y));
    crate::fx::lemma_add_neg(fx_add_v(fx_mul_v(a.x, b.x), fx_mul_v(a.y, b.y)), fx_mul_v(a.z, b.z));
    crate::fx::lemma_clip_odd(
        fx_add_v(fx_mul_v(a.x, b.x), fx_mul_v(a.y, b.y)) + fx_mul_v(a.z, b.z),
    );
}

impl Vec3 {
    pub fn new(x: Fx, y: Fx, z: Fx) -> (r: Vec3)
        ensures
            r@ == v3(x.raw as int, y.raw as int, z.raw as int),
    {
        Vec3 { x, y, z }
    }

    /// Fixed-point scalars have no not-a-number values, so no vector holds one.
    pub fn has_nans(&self) -> (r: bool)
        ensures
            r == false,
    {
        false
    }

    /// Inner (dot) product.
    pub fn dot(self, rhs: Vec3) -> (r: Fx)
        ensures
            r.raw as int == v3_dot(self@, rhs@),
    {
        dot(&self, &rhs)
    }

    /// Vector cross-product, right-handed.
    pub fn cross(&self, rhs: &Vec3) -> (r: Vec3)
        ensures
            r@ == v3_cross(self@, rhs@),
    {
        cross(self, rhs)
    }

    pub fn len_squared(self) -> (r: Fx)
        ensures
            r.raw as int == v3_len_squared(self@),
    {
        self.dot(self)
    }

    pub fn len(self) -> (r: Fx)
        ensures
            r.raw as int == v3_len(self@),
    {
        self.len_squared().sqrt()
    }

    /// A vector collinear with `self` of length close to one; the zero vector
    /// saturates instead, so callers must keep the input nonzero.
    pub fn normalized(self) -> (r: Vec3)
        ensures
            r@ == v3_normalized(self@),
    {
        self.scale(self.len().recip())
    }

    /// Componentwise sum.
    pub fn add(self, rhs: Vec3) -> (r: Vec3)
        ensures
            r@ == v3_add(self@, rhs@),
    {
        Vec3 { x: self.x.add(rhs.x), y: self.y.add(rhs.y), z: self.z.add(rhs.z) }
    }

    /// Componentwise difference.
    pub fn sub(self, rhs: Vec3) -> (r: Vec3)
        ensures
            r@ == v3_sub(self@, rhs@),
    {
        Vec3 { x: self.x.sub(rhs.x), y: self.y.sub(rhs.y), z: self.z.sub(rhs.z) }
    }

    pub fn neg(self) -> (r: Vec3)
        ensures
            r@ == v3_neg(self@),
    {
        Vec3 { x: self.x.neg(), y: self.y.neg(), z: self.z.neg() }
    }

    /// Vector-scalar multiplication.
    pub fn scale(self, s: Fx) -> (r: Vec3)
        ensures
            r@ == v3_scale(self@, s.raw as int),
    {
        Vec3 { x: self.x.mul(s), y: self.y.mul(s), z: self.z.mul(s) }
    }
}

/// Vector dot-product.
fn dot(u: &Vec3, v: &Vec3) -> (r: Fx)
    ensures
        r.raw as int == v3_dot(u@, v@),
{
    u.x.mul(v.x).add(u.y.mul(v.y)).add(u.z.mul(v.z))
}

/// Vector cross-product.
fn cross(u: &Vec3, v: &Vec3) -> (r: Vec3)
    ensures
        r@ == v3_cross(u@, v@),
{
    Vec3::new(
        u.y.mul(v.z).sub(u.z.mul(v.y)),
        u.z.mul(v.x).sub(u.x.mul(v.z)),
        u.x.mul(v.y).sub(u.y.mul(v.x)),
    )
}

/// Linear interpolation between two vectors.
pub fn lerp(v1: Vec3, v2: Vec3, t: Fx) -> (r: Vec3)
    ensures
        r@ == v3_lerp(v1@, v2@, t.raw as int),
{
    v1.scale(Fx::one().sub(t)).add(v2.scale(t))
}

} // verus!
