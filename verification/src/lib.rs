//! Post-processing of scanned line drawings.
//!
//! Two transforms work on rasters kept in buffers of the `image` crate:
//! [`transform::bw`] turns a grayscale scan into black and white, and
//! [`transform::halftone`] gives the dark parts of a scan a dot pattern in the
//! alpha channel. Both decide pixel by pixel, by the rules of [`rules`].
//!
//! The library works on integers only. Whatever a transform needs from real
//! arithmetic comes in as whole numbers: the compressed luma of each of the
//! 256 input lumas, and the dot coverage of each pixel.

pub mod grid;
pub mod rules;
pub mod transform;
