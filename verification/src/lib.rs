//! Escape-time fractal rendering engine: parameter handling, image buffer
//! layout, row-interleaved work partitioning, and the progressive preview
//! scheduler, with machine-checked contracts.
//!
//! The numerical iteration itself runs in double precision and therefore
//! lives with the unverified driver; this crate owns every decision around
//! it: how wide a padded row is, which worker owns which rows, where a pixel
//! batch lands in the shared buffer, when a progressive pass is published,
//! and which parameter changes force a full recompute.

use vstd::prelude::*;

pub mod generator;
pub mod layout;
pub mod params;
pub mod partition;
pub mod types;

verus! {

/// Number of horizontally adjacent pixels processed in lockstep per batch.
pub const LANES: usize = 4;

/// Bytes per pixel in the output buffer (RGB, one byte per channel).
pub const BYTES_PER_PIXEL: usize = 3;

/// One RGB pixel.
pub type Pixel = [u8; 3];

/// A pixel position: column, then row.
pub type PixelCoord = (usize, usize);

} // verus!
