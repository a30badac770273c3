//! The decision core of a recursive Monte Carlo path tracer.
//!
//! Everything in this crate works on integers: object ids, bounce budgets,
//! pixel coordinates, 8-bit samples, and the binary64 bit patterns of the
//! real quantities (distances, signs of tests, colour channels) that the
//! numeric kernel of a renderer produces. The kernel itself (vector algebra,
//! random sampling, file output) lives outside and drives these functions:
//! it evaluates the arithmetic of an intersection, asks `geometry` whether
//! it is a hit, hands the hits of one ray to `scene`, and follows the step
//! that comes back.
pub mod binary64;
pub mod color;
pub mod geometry;
pub mod renderer;
pub mod scene;
pub mod shader;
