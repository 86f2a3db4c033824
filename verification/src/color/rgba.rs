//! Packed pixels of four channels.

use vstd::prelude::*;

verus! {

/// A pixel of four channels; `Rgba<u8>` is the output format of a render.
#[derive(Clone, Copy, Debug, PartialEq, Eq)]
pub struct Rgba<T> {
    pub r: T,
    pub g: T,
    pub b: T,
    pub a: T,
}

impl<T> Rgba<T> {
    pub fn from_channels(r: T, g: T, b: T, a: T) -> (res: Rgba<T>)
        ensures
            res == (Rgba { r, g, b, a }),
    {
        Rgba { r, g, b, a }
    }
}

} // verus!
