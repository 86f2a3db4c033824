//! Linear and encoded colors.

pub mod linear;
pub mod rgba;

pub use linear::LinearColor;
pub use rgba::Rgba;
