//! Composing a whole glyph and drawing it on a surface.

use vstd::prelude::*;
use crate::digits::{decompose, digits_of, in_range, Digits};
use crate::error::RenderError;
use crate::geometry::{
    quadrant_box_of,
    stem_bottom,
    stem_top,
    stem_valid,
    Point,
    Quadrant,
    StemGeometry,
};
use crate::label::{label_of, numeral_label};
use crate::palette::{color_for, stroke_width, stroke_width_for, Palette};
use crate::strokes::{box_segments, box_segments_of, Category, Segment};
use crate::surface::{DrawCall, Surface, SurfaceView};

verus! {

/// The stem: from the upper end to the lower end.
pub open spec fn stem_segment_of(center: Point, scale: int) -> Segment {
    Segment {
        from: stem_top(center, scale),
        to: stem_bottom(center, scale),
        category: Category::Stem,
    }
}

/// The strokes of the digit `digit` in the box of `quadrant`.
pub open spec fn quadrant_segments_of(
    center: Point,
    scale: int,
    quadrant: Quadrant,
    digit: int,
) -> Seq<Segment> {
    box_segments_of(quadrant_box_of(center, scale, quadrant), digit)
}

/// All strokes of a glyph, in drawing order: the stem, then the strokes of
/// the units, the tens, the hundreds and the thousands.
pub open spec fn glyph_segments_of(center: Point, scale: int, d: Digits) -> Seq<Segment> {
    seq![stem_segment_of(center, scale)] + quadrant_segments_of(
        center,
        scale,
        Quadrant::Units,
        d.units as int,
    ) + quadrant_segments_of(center, scale, Quadrant::Tens, d.tens as int) + quadrant_segments_of(
        center,
        scale,
        Quadrant::Hundreds,
        d.hundreds as int,
    ) + quadrant_segments_of(center, scale, Quadrant::Thousands, d.thousands as int)
}

/// The line that draws `segment` with the colours of `palette`.
pub open spec fn call_of(segment: Segment, palette: Palette, width: int) -> DrawCall {
    DrawCall {
        from: segment.from,
        to: segment.to,
        stroke_width: width as i64,
        color: color_for(palette, segment.category),
    }
}

/// The lines that draw `segments`, one for each and in their order.
pub open spec fn calls_of(segments: Seq<Segment>, palette: Palette, width: int) -> Seq<DrawCall> {
    segments.map_values(|s: Segment| call_of(s, palette, width))
}

/// The lines of the glyph of `value`.
pub open spec fn glyph_calls(center: Point, scale: int, palette: Palette, value: int) -> Seq<
    DrawCall,
> {
    calls_of(
        glyph_segments_of(center, scale, digits_of(value)),
        palette,
        stroke_width_for(scale),
    )
}

/// What `render` answers: the value is judged first, then the scale, then
/// whether the glyph fits.
pub open spec fn render_outcome(center: Point, scale: int, value: int) -> Result<(), RenderError> {
    if !in_range(value) {
        Err(RenderError::OutOfRange)
    } else if scale <= 0 {
        Err(RenderError::InvalidScale)
    } else if !stem_valid(center, scale) {
        Err(RenderError::CoordinateOverflow)
    } else {
        Ok(())
    }
}

/// The lines that one call of `render` adds: those of the glyph where the
/// call succeeds, none where it fails.
pub open spec fn added_lines(center: Point, scale: int, palette: Palette, value: int) -> Seq<
    DrawCall,
> {
    if render_outcome(center, scale, value) is Ok {
        glyph_calls(center, scale, palette, value)
    } else {
        Seq::empty()
    }
}

/// What a surface holds after one call of `render`, given what it held before.
pub open spec fn rendered(
    before: SurfaceView,
    center: Point,
    scale: int,
    palette: Palette,
    value: int,
    show_label: bool,
) -> SurfaceView {
    if render_outcome(center, scale, value) is Ok {
        SurfaceView {
            lines: before.lines + glyph_calls(center, scale, palette, value),
            labels: if show_label {
                before.labels.push(label_of(digits_of(value)))
            } else {
                before.labels
            },
        }
    } else {
        before
    }
}

/// The stem of the glyph laid out on `stem`.
pub fn stem_segment(stem: &StemGeometry) -> (segment: Segment)
    ensures
        segment == stem_segment_of(stem.spec_center(), stem.spec_scale() as int),
{
    Segment { from: stem.top(), to: stem.bottom(), category: Category::Stem }
}

/// The strokes of `digit` in the box of `quadrant`: one rule for the four
/// positions, which differ in their box alone.
pub fn quadrant_segments(stem: &StemGeometry, quadrant: Quadrant, digit: u8) -> (segments: Vec<
    Segment,
>)
    requires
        digit <= 9,
    ensures
        segments@ == quadrant_segments_of(
            stem.spec_center(),
            stem.spec_scale() as int,
            quadrant,
            digit as int,
        ),
{
    let b = stem.quadrant_box(quadrant);
    box_segments(&b, digit)
}

/// All strokes of the glyph that `digits` spell on `stem`.
pub fn glyph_segments(stem: &StemGeometry, digits: &Digits) -> (segments: Vec<Segment>)
    requires
        digits.wf(),
    ensures
        segments@ == glyph_segments_of(stem.spec_center(), stem.spec_scale() as int, *digits),
{
    let mut segments: Vec<Segment> = Vec::new();
    segments.push(stem_segment(stem));
    let mut units = quadrant_segments(stem, Quadrant::Units, digits.units);
    segments.append(&mut units);
    let mut tens = quadrant_segments(stem, Quadrant::Tens, digits.tens);
    segments.append(&mut tens);
    let mut hundreds = quadrant_segments(stem, Quadrant::Hundreds, digits.hundreds);
    segments.append(&mut hundreds);
    let mut thousands = quadrant_segments(stem, Quadrant::Thousands, digits.thousands);
    segments.append(&mut thousands);
    assert(segments@ =~= glyph_segments_of(
        stem.spec_center(),
        stem.spec_scale() as int,
        *digits,
    ));
    segments
}

/// Draws each of `segments` as one line, in their order, with the colour
/// that `palette` gives to its category.
pub fn emit(surface: &mut Surface, segments: &Vec<Segment>, palette: &Palette, width: i64)
    ensures
        final(surface)@.lines == old(surface)@.lines + calls_of(segments@, *palette, width as int),
        final(surface)@.labels == old(surface)@.labels,
{
    let mut i: usize = 0;
    while i < segments.len()
        invariant
            i <= segments.len(),
            surface@.lines == old(surface)@.lines + calls_of(
                segments@.subrange(0, i as int),
                *palette,
                width as int,
            ),
            surface@.labels == old(surface)@.labels,
        decreases segments.len() - i,
    {
        let s = segments[i];
        surface.draw_line(s.from, s.to, width, palette.color_of(s.category));
        assert(surface@.lines =~= old(surface)@.lines + calls_of(
            segments@.subrange(0, i + 1),
            *palette,
            width as int,
        ));
        i += 1;
    }
    assert(segments@.subrange(0, i as int) =~= segments@);
}

/// Draws the glyph of `value` on `surface`, around `center` and at `scale`,
/// and writes its label too where `show_label` is set.
///
/// A value outside 0..=9999 is `OutOfRange`, whatever the scale. Otherwise a
/// scale of zero or less is `InvalidScale`, and a glyph that would leave the
/// coordinate space is `CoordinateOverflow`. On an error nothing is drawn.
/// The label has no part in which lines are drawn.
pub fn render(
    surface: &mut Surface,
    center: Point,
    scale: i64,
    palette: &Palette,
    value: i64,
    show_label: bool,
) -> (r: Result<(), RenderError>)
    ensures
        r == render_outcome(center, scale as int, value as int),
        final(surface)@ == rendered(
            old(surface)@,
            center,
            scale as int,
            *palette,
            value as int,
            show_label,
        ),
        !in_range(value as int) ==> r == Err::<(), RenderError>(RenderError::OutOfRange)
            && final(surface)@ == old(surface)@,
{
    let digits = match decompose(value) {
        Ok(d) => d,
        Err(e) => {
            return Err(e);
        },
    };
    let stem = match StemGeometry::new(center, scale) {
        Ok(s) => s,
        Err(e) => {
            return Err(e);
        },
    };
    if show_label {
        surface.draw_label(numeral_label(&digits));
    }
    let segments = glyph_segments(&stem, &digits);
    emit(surface, &segments, palette, stroke_width(scale));
    Ok(())
}

} // verus!
