//! What holds of every glyph: the four quadrants mirror one another, and a
//! glyph drawn again is drawn the same.

use vstd::prelude::*;
use crate::digits::{digits_of, in_range};
use crate::error::RenderError;
use crate::geometry::{quadrant_box_of, stem_valid, Point, Quadrant, QuadrantBox};
use crate::glyph::{
    added_lines,
    glyph_calls,
    glyph_segments_of,
    quadrant_segments_of,
    render_outcome,
    rendered,
    stem_segment_of,
};
use crate::palette::Palette;
use crate::strokes::Segment;
use crate::surface::{DrawCall, SurfaceView};

verus! {

/// `p` reflected in the vertical line `x == axis`.
pub open spec fn mirror_x(p: Point, axis: int) -> Point {
    Point { x: (2 * axis - p.x) as i64, y: p.y }
}

/// `p` reflected in the horizontal line `y == axis`.
pub open spec fn mirror_y(p: Point, axis: int) -> Point {
    Point { x: p.x, y: (2 * axis - p.y) as i64 }
}

/// `b` with each corner reflected in the vertical line `x == axis`.
pub open spec fn mirror_box_x(b: QuadrantBox, axis: int) -> QuadrantBox {
    QuadrantBox {
        near: mirror_x(b.near, axis),
        far: mirror_x(b.far, axis),
        near_inset: mirror_x(b.near_inset, axis),
        far_inset: mirror_x(b.far_inset, axis),
    }
}

/// `b` with each corner reflected in the horizontal line `y == axis`.
pub open spec fn mirror_box_y(b: QuadrantBox, axis: int) -> QuadrantBox {
    QuadrantBox {
        near: mirror_y(b.near, axis),
        far: mirror_y(b.far, axis),
        near_inset: mirror_y(b.near_inset, axis),
        far_inset: mirror_y(b.far_inset, axis),
    }
}

/// `s` with both ends reflected in the vertical line `x == axis`.
pub open spec fn mirror_segment_x(s: Segment, axis: int) -> Segment {
    Segment { from: mirror_x(s.from, axis), to: mirror_x(s.to, axis), category: s.category }
}

/// `s` with both ends reflected in the horizontal line `y == axis`.
pub open spec fn mirror_segment_y(s: Segment, axis: int) -> Segment {
    Segment { from: mirror_y(s.from, axis), to: mirror_y(s.to, axis), category: s.category }
}

/// The box of the tens is the box of the units reflected in the stem, and
/// the box of the thousands is that of the hundreds reflected in the stem.
/// The boxes of the hundreds and the thousands are those of the units and
/// the tens reflected in the horizontal line through the centre.
pub proof fn lemma_boxes_mirror(center: Point, scale: int)
    requires
        stem_valid(center, scale),
    ensures
        quadrant_box_of(center, scale, Quadrant::Tens) == mirror_box_x(
            quadrant_box_of(center, scale, Quadrant::Units),
            center.x as int,
        ),
        quadrant_box_of(center, scale, Quadrant::Thousands) == mirror_box_x(
            quadrant_box_of(center, scale, Quadrant::Hundreds),
            center.x as int,
        ),
        quadrant_box_of(center, scale, Quadrant::Hundreds) == mirror_box_y(
            quadrant_box_of(center, scale, Quadrant::Units),
            center.y as int,
        ),
        quadrant_box_of(center, scale, Quadrant::Thousands) == mirror_box_y(
            quadrant_box_of(center, scale, Quadrant::Tens),
            center.y as int,
        ),
{
}

/// A digit in the tens is drawn as the same digit in the units, reflected
/// in the stem; likewise in the thousands and the hundreds. A digit in the
/// hundreds or thousands is drawn as the same digit in the units or tens,
/// reflected in the horizontal line through the centre.
pub proof fn lemma_digits_mirror(center: Point, scale: int, digit: int)
    requires
        stem_valid(center, scale),
        0 <= digit <= 9,
    ensures
        quadrant_segments_of(center, scale, Quadrant::Tens, digit) == quadrant_segments_of(
            center,
            scale,
            Quadrant::Units,
            digit,
        ).map_values(|s: Segment| mirror_segment_x(s, center.x as int)),
        quadrant_segments_of(center, scale, Quadrant::Thousands, digit) == quadrant_segments_of(
            center,
            scale,
            Quadrant::Hundreds,
            digit,
        ).map_values(|s: Segment| mirror_segment_x(s, center.x as int)),
        quadrant_segments_of(center, scale, Quadrant::Hundreds, digit) == quadrant_segments_of(
            center,
            scale,
            Quadrant::Units,
            digit,
        ).map_values(|s: Segment| mirror_segment_y(s, center.y as int)),
        quadrant_segments_of(center, scale, Quadrant::Thousands, digit) == quadrant_segments_of(
            center,
            scale,
            Quadrant::Tens,
            digit,
        ).map_values(|s: Segment| mirror_segment_y(s, center.y as int)),
{
    lemma_boxes_mirror(center, scale);
    assert(quadrant_segments_of(center, scale, Quadrant::Tens, digit) =~= quadrant_segments_of(
        center,
        scale,
        Quadrant::Units,
        digit,
    ).map_values(|s: Segment| mirror_segment_x(s, center.x as int)));
    assert(quadrant_segments_of(center, scale, Quadrant::Thousands, digit)
        =~= quadrant_segments_of(center, scale, Quadrant::Hundreds, digit).map_values(
        |s: Segment| mirror_segment_x(s, center.x as int),
    ));
    assert(quadrant_segments_of(center, scale, Quadrant::Hundreds, digit)
        =~= quadrant_segments_of(center, scale, Quadrant::Units, digit).map_values(
        |s: Segment| mirror_segment_y(s, center.y as int),
    ));
    assert(quadrant_segments_of(center, scale, Quadrant::Thousands, digit)
        =~= quadrant_segments_of(center, scale, Quadrant::Tens, digit).map_values(
        |s: Segment| mirror_segment_y(s, center.y as int),
    ));
}

/// The lines that a call of `render` adds are the same whatever the surface
/// held before: two surfaces that start alike end alike, and a second call
/// on one surface adds the lines of the first once more.
pub proof fn lemma_render_repeats(
    a: SurfaceView,
    b: SurfaceView,
    center: Point,
    scale: int,
    palette: Palette,
    value: int,
    show_label: bool,
)
    ensures
        rendered(a, center, scale, palette, value, show_label).lines == a.lines + added_lines(
            center,
            scale,
            palette,
            value,
        ),
        rendered(b, center, scale, palette, value, show_label).lines == b.lines + added_lines(
            center,
            scale,
            palette,
            value,
        ),
        a.lines == b.lines ==> rendered(a, center, scale, palette, value, show_label).lines
            == rendered(b, center, scale, palette, value, show_label).lines,
        rendered(
            rendered(a, center, scale, palette, value, show_label),
            center,
            scale,
            palette,
            value,
            show_label,
        ).lines == a.lines + added_lines(center, scale, palette, value) + added_lines(
            center,
            scale,
            palette,
            value,
        ),
{
    assert(a.lines + Seq::<DrawCall>::empty() =~= a.lines);
    assert(b.lines + Seq::<DrawCall>::empty() =~= b.lines);
}

/// A value outside 0..=9999 is refused as out of range and adds no line,
/// whatever the centre, the scale and the palette.
pub proof fn lemma_out_of_range_draws_nothing(
    before: SurfaceView,
    center: Point,
    scale: int,
    palette: Palette,
    value: int,
    show_label: bool,
)
    requires
        !in_range(value),
    ensures
        render_outcome(center, scale, value) == Err::<(), RenderError>(RenderError::OutOfRange),
        rendered(before, center, scale, palette, value, show_label) == before,
        added_lines(center, scale, palette, value).len() == 0,
{
}

/// A glyph is its stem and at most three strokes in each quadrant: from
/// one line to thirteen, the stem first. The glyph of zero is the stem alone.
pub proof fn lemma_glyph_size(center: Point, scale: int, palette: Palette, value: int)
    requires
        in_range(value),
    ensures
        1 <= glyph_segments_of(center, scale, digits_of(value)).len() <= 13,
        glyph_segments_of(center, scale, digits_of(value))[0] == stem_segment_of(center, scale),
        glyph_calls(center, scale, palette, value).len() == glyph_segments_of(
            center,
            scale,
            digits_of(value),
        ).len(),
        value == 0 ==> glyph_segments_of(center, scale, digits_of(value)) == seq![
            stem_segment_of(center, scale),
        ],
{
    if value == 0 {
        assert(glyph_segments_of(center, scale, digits_of(value)) =~= seq![
            stem_segment_of(center, scale),
        ]);
    }
}

} // verus!
