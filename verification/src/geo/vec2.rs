//! Two-dimensional vectors over the fixed-point scalar.

use crate::fx::{fx_abs_v, fx_add_v, fx_div_v, fx_max_v, fx_min_v, fx_mul_v, fx_sqrt_v, fx_sub_v,
    Fx, SCALE};
use vstd::prelude::*;

verus! {

/// A two-dimensional vector.
#[derive(Clone, Copy, Debug, PartialEq, Eq, Structural)]
pub struct Vec2 {
    pub x: Fx,
    pub y: Fx,
}

/// A dimension name, for permuting coordinates.
pub enum Dim {
    X,
    Y,
}

/// The mathematical image of a two-dimensional vector.
#[verifier::ext_equal]
pub ghost struct V2 {
    pub x: int,
    pub y: int,
}

impl View for Vec2 {
    type V = V2;

    open spec fn view(&self) -> V2 {
        V2 { x: self.x.raw as int, y: self.y.raw as int }
    }
}

pub open spec fn v2_dot(a: V2, b: V2) -> int {
    fx_add_v(fx_mul_v(a.x, b.x), fx_mul_v(a.y, b.y))
}

pub open spec fn v2_len_squared(a: V2) -> int {
    v2_dot(a, a)
}

pub open spec fn v2_len(a: V2) -> int {
    fx_sqrt_v(v2_len_squared(a))
}

pub open spec fn v2_scale(a: V2, s: int) -> V2 {
    V2 { x: fx_mul_v(a.x, s), y: fx_mul_v(a.y, s) }
}

pub open spec fn v2_sub(a: V2, b: V2) -> V2 {
    V2 { x: fx_sub_v(a.x, b.x), y: fx_sub_v(a.y, b.y) }
}

pub open spec fn v2_normalized(a: V2) -> V2 {
    v2_scale(a, fx_div_v(SCALE as int, v2_len(a)))
}

/// `v - n * 2 * (v . n)`, the mirror image of `v` about the plane with
/// normal `n`.
pub open spec fn v2_reflect(v: V2, n: V2) -> V2 {
    v2_sub(v, v2_scale(v2_scale(n, 2 * SCALE), v2_dot(v, n)))
}

impl Vec2 {
    /// Constructs a vector with given `x` and `y` components.
    pub fn new(x: Fx, y: Fx) -> (r: Vec2)
        ensures
            r@ == (V2 { x: x.raw as int, y: y.raw as int }),
    {
        Vec2 { x, y }
    }

    /// Dot product.
    pub fn dot(self, other: Vec2) -> (r: Fx)
        ensures
            r.raw as int == v2_dot(self@, other@),
    {
        self.x.mul(other.x).add(self.y.mul(other.y))
    }

    /// Absolute value of the dot product.
    pub fn abs_dot(self, other: Vec2) -> (r: Fx)
        ensures
            r.raw as int == fx_abs_v(v2_dot(self@, other@)),
    {
        self.dot(other).abs()
    }

    /// Squared length of a vector.
    pub fn len_squared(self) -> (r: Fx)
        ensures
            r.raw as int == v2_len_squared(self@),
    {
        self.dot(self)
    }

    /// Euclidean length of a vector.
    pub fn len(self) -> (r: Fx)
        ensures
            r.raw as int == v2_len(self@),
    {
        self.len_squared().sqrt()
    }

    /// A vector collinear with `self` of length close to one; callers keep
    /// the input nonzero.
    pub fn normalized(self) -> (r: Vec2)
        ensures
            r@ == v2_normalized(self@),
    {
        self.scale(self.len().recip())
    }

    /// Smallest coordinate value.
    pub fn min_component(self) -> (r: Fx)
        ensures
            r.raw as int == fx_min_v(self.x.raw as int, self.y.raw as int),
    {
        if self.x.le(self.y) {
            self.x
        } else {
            self.y
        }
    }

    /// Largest coordinate value.
    pub fn max_component(self) -> (r: Fx)
        ensures
            r.raw as int == fx_max_v(self.x.raw as int, self.y.raw as int),
    {
        if self.y.le(self.x) {
            self.x
        } else {
            self.y
        }
    }

    /// Reorders the coordinates by dimension name.
    pub fn permute(self, x: Dim, y: Dim) -> (r: Vec2)
        ensures
            r@.x == (match x {
                Dim::X => self@.x,
                Dim::Y => self@.y,
            }),
            r@.y == (match y {
                Dim::X => self@.x,
                Dim::Y => self@.y,
            }),
    {
        let rx = match x {
            Dim::X => self.x,
            Dim::Y => self.y,
        };
        let ry = match y {
            Dim::X => self.x,
            Dim::Y => self.y,
        };
        Vec2::new(rx, ry)
    }

    /// Mirror image about the plane with normal `n`; `n` should be of unit
    /// length.
    pub fn reflect(self, n: Vec2) -> (r: Vec2)
        ensures
            r@ == v2_reflect(self@, n@),
    {
        self.sub(n.scale(Fx::whole(2)).scale(self.dot(n)))
    }

    /// Componentwise difference.
    pub fn sub(self, other: Vec2) -> (r: Vec2)
        ensures
            r@ == v2_sub(self@, other@),
    {
        Vec2 { x: self.x.sub(other.x), y: self.y.sub(other.y) }
    }

    /// Vector-scalar multiplication.
    pub fn scale(self, s: Fx) -> (r: Vec2)
        ensures
            r@ == v2_scale(self@, s.raw as int),
    {
        Vec2 { x: self.x.mul(s), y: self.y.mul(s) }
    }
}

} // verus!
