//! A 4x4 matrix.

use crate::fx::{Fx, SCALE};
use vstd::prelude::*;

verus! {

/// A 4x4 matrix of fixed-point entries, in row-major order.
#[derive(Clone, Copy, Debug, PartialEq, Eq)]
pub struct Mat4 {
    pub m: [[Fx; 4]; 4],
}

impl Mat4 {
    /// Creates an identity matrix: ones on the diagonal, zeroes elsewhere.
    pub fn identity() -> (r: Mat4)
        ensures
            forall|i: int, j: int|
                0 <= i < 4 && 0 <= j < 4 ==> (#[trigger] r.m@[i]@[j]).raw == if i == j {
                    SCALE as int
                } else {
                    0
                },
    {
        let o = Fx::one();
        let z = Fx::zero();
        let m = [[o, z, z, z], [z, o, z, z], [z, z, o, z], [z, z, z, o]];
        Mat4 { m }
    }

    /// The entry at row `i` and column `j`.
    pub fn at(&self, i: usize, j: usize) -> (v: Fx)
        requires
            i < 4,
            j < 4,
        ensures
            v == self.m@[i as int]@[j as int],
    {
        self.m[i][j]
    }
}

} // verus!
