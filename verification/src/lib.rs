//! An offline path tracer over fixed-point arithmetic.
//!
//! Scenes of spheres and triangles with Lambertian, metal and dielectric
//! materials are rendered into a linear RGBA buffer by a recursive
//! Monte-Carlo integrator, then tone-mapped to 8-bit pixels. All scalar
//! arithmetic is carried out on [`fx::Fx`], a binary fixed-point type, so
//! that every stage has an exact, machine-checked contract and a seeded
//! render is reproducible bit for bit.

pub mod camera;
pub mod color;
pub mod fx;
pub mod geo;
pub mod hit;
pub mod material;
pub mod render;
pub mod rng;
pub mod scene;
pub mod shape;
