//! Deterministic color-ramp palette generation for pixel art.
//!
//! From one base color in HSV space and per-index offset tables, the
//! generator produces a grid of color ramps: a grayscale ramp followed by
//! hue-rotated copies of a mirrored "horseshoe" gradient built around the
//! base color. All channels are fixed-point integers: hue in thousandths
//! of a degree, saturation and value in thousandths of full scale.

pub mod color;
pub mod config;
pub mod error;
pub mod generator;
