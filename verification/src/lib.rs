//! Per-frame draw core of a sprite-oriented renderer.
//!
//! The crate composes affine transforms into render matrices, accumulates
//! per-instance draw attributes into batched draw calls, and keeps a cache of
//! compiled pipeline objects keyed by blend mode.  Numeric values are IEEE 754
//! binary32 quantities carried as raw bit patterns (see [`scalar`]), so that
//! every structural operation on them is verified; the four rounding
//! arithmetic operations are delegated to a software float implementation.

pub mod asset;
pub mod graphics;
pub mod input;
pub mod scalar;
