//! Decision core of a stochastic path tracer.
//!
//! Every number is a binary64 value held by its bit pattern (`Scalar`), so that
//! each comparison, clamp, sign test and truncation the renderer makes is an
//! integer computation with a proved contract. Rounded arithmetic (sums,
//! products, square roots) is left to the caller, who hands its results in as
//! scalars.
pub mod camera;
pub mod color;
pub mod hittable;
pub mod interval;
pub mod material;
pub mod ray;
pub mod scalar;
pub mod sphere;
pub mod value;
pub mod vec3;
