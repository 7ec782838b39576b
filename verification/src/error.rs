//! Why a glyph could not be rendered.

use vstd::prelude::*;

verus! {

/// Why a glyph could not be rendered.
#[derive(Clone, Copy, Debug, PartialEq, Eq, Structural)]
pub enum RenderError {
    /// The value is below 0 or above 9999.
    OutOfRange,
    /// The scale is zero or negative.
    InvalidScale,
    /// Some point of the glyph would leave the coordinate space.
    CoordinateOverflow,
}

} // verus!
