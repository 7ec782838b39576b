//! The stem of a glyph and the four square boxes that hang on its ends.

use vstd::prelude::*;
use crate::error::RenderError;

verus! {

/// Half the height of the stem, in units of the scale.
pub const HALF_HEIGHT_UNITS: i64 = 16;

/// The side of a quadrant box, in units of the scale.
pub const BOX_SIDE_UNITS: i64 = 10;

/// A point of the drawing plane. `y` grows downwards.
#[derive(Clone, Copy, Debug, PartialEq, Eq, Structural)]
pub struct Point {
    pub x: i64,
    pub y: i64,
}

/// One of the four digit positions, each with its own region beside the stem.
#[derive(Clone, Copy, Debug, PartialEq, Eq, Structural)]
pub enum Quadrant {
    /// Top of the stem, to the right.
    Units,
    /// Top of the stem, to the left.
    Tens,
    /// Bottom of the stem, to the right.
    Hundreds,
    /// Bottom of the stem, to the left.
    Thousands,
}

/// The corners of the square in which one digit is drawn.
#[derive(Clone, Copy, Debug, PartialEq, Eq, Structural)]
pub struct QuadrantBox {
    /// On the stem, at the end of the stem that the box hangs on.
    pub near: Point,
    /// Level with `near`, one side away from the stem.
    pub far: Point,
    /// On the stem, one side from `near` towards the middle of the stem.
    pub near_inset: Point,
    /// Level with `near_inset`, one side away from the stem.
    pub far_inset: Point,
}

/// The distance from the centre of the stem to either of its ends.
pub open spec fn half_height(scale: int) -> int {
    16 * scale
}

/// The side of a quadrant box.
pub open spec fn box_side(scale: int) -> int {
    10 * scale
}

/// Whether every point of a glyph at `center` with this scale has `i64` coordinates.
pub open spec fn glyph_fits(center: Point, scale: int) -> bool {
    &&& i64::MIN <= center.x - box_side(scale)
    &&& center.x + box_side(scale) <= i64::MAX
    &&& i64::MIN <= center.y - half_height(scale)
    &&& center.y + half_height(scale) <= i64::MAX
}

/// Whether a stem can be laid out: a positive scale and a glyph that fits.
pub open spec fn stem_valid(center: Point, scale: int) -> bool {
    scale > 0 && glyph_fits(center, scale)
}

/// The upper end of the stem.
pub open spec fn stem_top(center: Point, scale: int) -> Point {
    Point { x: center.x, y: (center.y - half_height(scale)) as i64 }
}

/// The lower end of the stem.
pub open spec fn stem_bottom(center: Point, scale: int) -> Point {
    Point { x: center.x, y: (center.y + half_height(scale)) as i64 }
}

impl Quadrant {
    /// Whether the box hangs on the upper end of the stem.
    pub open spec fn at_top(self) -> bool {
        self == Quadrant::Units || self == Quadrant::Tens
    }

    /// `+1` for a box to the right of the stem, `-1` for one to the left.
    pub open spec fn sign(self) -> int {
        if self == Quadrant::Units || self == Quadrant::Hundreds {
            1
        } else {
            -1
        }
    }

    /// `+1` where the middle of the stem lies below the box's anchor, else `-1`.
    pub open spec fn inward(self) -> int {
        if self.at_top() {
            1
        } else {
            -1
        }
    }
}

/// The end of the stem that the box of `quadrant` hangs on.
pub open spec fn anchor_of(center: Point, scale: int, quadrant: Quadrant) -> Point {
    if quadrant.at_top() {
        stem_top(center, scale)
    } else {
        stem_bottom(center, scale)
    }
}

/// The box of `quadrant`: the anchor, the anchor moved sideways by one side, and
/// both moved by one side towards the middle of the stem.
pub open spec fn quadrant_box_of(center: Point, scale: int, quadrant: Quadrant) -> QuadrantBox {
    let anchor = anchor_of(center, scale, quadrant);
    let far_x = (anchor.x + quadrant.sign() * box_side(scale)) as i64;
    let inset_y = (anchor.y + quadrant.inward() * box_side(scale)) as i64;
    QuadrantBox {
        near: anchor,
        far: Point { x: far_x, y: anchor.y },
        near_inset: Point { x: anchor.x, y: inset_y },
        far_inset: Point { x: far_x, y: inset_y },
    }
}

/// A centre and a scale from which a whole glyph can be laid out.
#[derive(Clone, Copy, Debug, PartialEq, Eq)]
pub struct StemGeometry {
    center: Point,
    scale: i64,
}

impl StemGeometry {
    #[verifier::type_invariant]
    spec fn inv(self) -> bool {
        stem_valid(self.center, self.scale as int)
    }

    /// The centre of the stem.
    pub closed spec fn spec_center(&self) -> Point {
        self.center
    }

    /// The scale factor.
    pub closed spec fn spec_scale(&self) -> i64 {
        self.scale
    }

    /// Checks a centre and a scale. A scale of zero or less is `InvalidScale`;
    /// a positive scale with which the glyph would leave the coordinate space
    /// is `CoordinateOverflow`.
    pub fn new(center: Point, scale: i64) -> (r: Result<StemGeometry, RenderError>)
        ensures
            r is Ok <==> stem_valid(center, scale as int),
            r matches Ok(stem) ==> stem.spec_center() == center && stem.spec_scale() == scale,
            r matches Err(e) ==> e == if scale <= 0 {
                RenderError::InvalidScale
            } else {
                RenderError::CoordinateOverflow
            },
    {
        if scale <= 0 {
            return Err(RenderError::InvalidScale);
        }
        if scale > i64::MAX / HALF_HEIGHT_UNITS {
            return Err(RenderError::CoordinateOverflow);
        }
        let side: i64 = BOX_SIDE_UNITS * scale;
        let half: i64 = HALF_HEIGHT_UNITS * scale;
        if center.x < i64::MIN + side || center.x > i64::MAX - side || center.y < i64::MIN + half
            || center.y > i64::MAX - half {
            return Err(RenderError::CoordinateOverflow);
        }
        Ok(StemGeometry { center, scale })
    }

    /// The centre of the stem.
    #[verifier::when_used_as_spec(spec_center)]
    pub fn center(&self) -> (c: Point)
        ensures
            c == self.spec_center(),
            stem_valid(self.spec_center(), self.spec_scale() as int),
    {
        proof {
            use_type_invariant(self);
        }
        self.center
    }

    /// The scale factor, which is positive.
    #[verifier::when_used_as_spec(spec_scale)]
    pub fn scale(&self) -> (s: i64)
        ensures
            s == self.spec_scale(),
            stem_valid(self.spec_center(), self.spec_scale() as int),
    {
        proof {
            use_type_invariant(self);
        }
        self.scale
    }

    /// The distance from the centre to either end of the stem: 16 times the scale.
    pub fn half_height(&self) -> (h: i64)
        ensures
            h == half_height(self.spec_scale() as int),
    {
        proof {
            use_type_invariant(self);
        }
        HALF_HEIGHT_UNITS * self.scale
    }

    /// The side of a quadrant box: 10 times the scale.
    pub fn box_side(&self) -> (s: i64)
        ensures
            s == box_side(self.spec_scale() as int),
    {
        proof {
            use_type_invariant(self);
        }
        BOX_SIDE_UNITS * self.scale
    }

    /// The upper end of the stem.
    pub fn top(&self) -> (p: Point)
        ensures
            p == stem_top(self.spec_center(), self.spec_scale() as int),
    {
        proof {
            use_type_invariant(self);
        }
        Point { x: self.center.x, y: self.center.y - HALF_HEIGHT_UNITS * self.scale }
    }

    /// The lower end of the stem.
    pub fn bottom(&self) -> (p: Point)
        ensures
            p == stem_bottom(self.spec_center(), self.spec_scale() as int),
    {
        proof {
            use_type_invariant(self);
        }
        Point { x: self.center.x, y: self.center.y + HALF_HEIGHT_UNITS * self.scale }
    }

    /// The box in which the digit of `quadrant` is drawn.
    pub fn quadrant_box(&self, quadrant: Quadrant) -> (b: QuadrantBox)
        ensures
            b == quadrant_box_of(self.spec_center(), self.spec_scale() as int, quadrant),
    {
        proof {
            use_type_invariant(self);
        }
        let side: i64 = BOX_SIDE_UNITS * self.scale;
        let (anchor, inset_y): (Point, i64) = match quadrant {
            Quadrant::Units | Quadrant::Tens => {
                let top = self.top();
                (top, top.y + side)
            },
            Quadrant::Hundreds | Quadrant::Thousands => {
                let bottom = self.bottom();
                (bottom, bottom.y - side)
            },
        };
        let far_x: i64 = match quadrant {
            Quadrant::Units | Quadrant::Hundreds => anchor.x + side,
            Quadrant::Tens | Quadrant::Thousands => anchor.x - side,
        };
        QuadrantBox {
            near: anchor,
            far: Point { x: far_x, y: anchor.y },
            near_inset: Point { x: anchor.x, y: inset_y },
            far_inset: Point { x: far_x, y: inset_y },
        }
    }
}

} // verus!
