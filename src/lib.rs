//! Renders raster images as text: every output cell is a character chosen by
//! the luminance of one resampled pixel, optionally wrapped in a true-color
//! escape sequence.
//!
//! All real-valued settings are exact fixed-point integers: scale, aspect,
//! brightness and contrast in thousandths, luminance in units of
//! `1 / LUM_ONE`, so that the sRGB weights 0.2126, 0.7152 and 0.0722 are exact.

pub mod config;
pub mod size;
pub mod tone;
pub mod text;
pub mod quantize;
pub mod render;
pub mod buffer;
pub mod pipeline;
