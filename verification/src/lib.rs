//! Verified core of an L-system fractal renderer.
//!
//! The library expands Lindenmayer-system grammars from a fixed catalog,
//! interprets the expanded symbol sequence as a stream of turtle-graphics
//! operations with a verified save/restore stack discipline, parses
//! hex-triplet colors, and recolors a raster pixel buffer with a linear
//! gradient keyed by buffer scan position.  Drawing itself (canvas access,
//! floating-point geometry) is left to the embedding application.

pub mod catalog;
pub mod color;
pub mod errors;
pub mod expansion;
pub mod gradient;
pub mod lsystem;
pub mod render;
pub mod turtle;
