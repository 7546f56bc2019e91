//! Verified core of the SpecCade audio backend.
//!
//! - [`rng`]: seed derivation (BLAKE3) and PCG32 generator construction.
//! - [`effects`]: the delay-line ring buffer, the effect chain's stereo
//!   input, gate/expander hold and granular grain scheduling.
//! - [`loop_processing`]: zero-crossing search and loop-point selection.
//! - [`envelope`]: phase decisions of the ADSR envelope.
//! - [`mixer`]: mono and stereo output layouts.
//! - [`generate`], [`instrument`]: request limits, note selection and
//!   result types.
//!
//! Sample arithmetic is floating point and stays with the caller; samples
//! enter this crate either as an opaque sample type or, where their order
//! matters, as integer levels (see [`loop_processing`]).

pub mod effects;
pub mod envelope;
pub mod generate;
pub mod instrument;
pub mod loop_processing;
pub mod mixer;
pub mod rng;
