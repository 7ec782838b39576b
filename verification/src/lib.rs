//! Cistercian numerals: a vertical stem with up to four clusters of strokes,
//! one for each decimal digit of a number from 0 to 9999.
//!
//! Coordinates are integers. A caller who wants sub-pixel precision picks a
//! finer unit and a larger scale.

pub mod error;
pub mod digits;
pub mod geometry;
pub mod strokes;
pub mod palette;
pub mod surface;
pub mod label;
pub mod glyph;
pub mod clock;
pub mod laws;
