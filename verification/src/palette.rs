//! Colours and stroke width: what a stroke looks like once it is drawn.

use vstd::prelude::*;
use crate::strokes::Category;

verus! {

/// The stroke width below which no glyph is drawn.
pub const MIN_STROKE_WIDTH: i64 = 2;

/// The scale of a glyph for which the caller names none.
pub const DEFAULT_SCALE: i64 = 1;

/// A colour as red, green, blue and alpha, each from 0 to 255.
#[derive(Clone, Copy, Debug, PartialEq, Eq, Structural)]
pub struct Color {
    pub r: u8,
    pub g: u8,
    pub b: u8,
    pub a: u8,
}

/// One colour for the stem and one for each kind of stroke. There is no
/// `colour_5`: five is drawn with the strokes of one and four.
#[derive(Clone, Copy, Debug, PartialEq, Eq, Structural)]
pub struct Palette {
    pub colour_0: Color,
    pub colour_1: Color,
    pub colour_2: Color,
    pub colour_3: Color,
    pub colour_4: Color,
    pub colour_6: Color,
}

/// The opaque colour with the given red, green and blue.
pub open spec fn rgb_of(r: u8, g: u8, b: u8) -> Color {
    Color { r, g, b, a: 255 }
}

impl Color {
    /// The opaque colour with the given red, green and blue.
    pub fn rgb(r: u8, g: u8, b: u8) -> (c: Color)
        ensures
            c == rgb_of(r, g, b),
    {
        Color { r, g, b, a: 255 }
    }

    /// The opaque grey of the given lightness.
    pub fn gray(l: u8) -> (c: Color)
        ensures
            c == rgb_of(l, l, l),
    {
        Color { r: l, g: l, b: l, a: 255 }
    }
}

/// The colour that `palette` gives to strokes of `category`.
pub open spec fn color_for(palette: Palette, category: Category) -> Color {
    match category {
        Category::Stem => palette.colour_0,
        Category::Cat1 => palette.colour_1,
        Category::Cat2 => palette.colour_2,
        Category::Cat3 => palette.colour_3,
        Category::Cat4 => palette.colour_4,
        Category::Cat6 => palette.colour_6,
    }
}

/// The width of every stroke of a glyph: the scale, but never less than 2.
pub open spec fn stroke_width_for(scale: int) -> int {
    if scale < 2 {
        2
    } else {
        scale
    }
}

/// The colours of a glyph on a dark background.
pub open spec fn dark_colours() -> Palette {
    Palette {
        colour_0: rgb_of(242, 242, 242),
        colour_1: rgb_of(58, 134, 255),
        colour_2: rgb_of(251, 86, 7),
        colour_3: rgb_of(162, 106, 241),
        colour_4: rgb_of(255, 0, 110),
        colour_6: rgb_of(255, 190, 11),
    }
}

/// The colours of a glyph on a light background.
pub open spec fn light_colours() -> Palette {
    Palette {
        colour_0: rgb_of(4, 3, 15),
        colour_1: rgb_of(93, 93, 91),
        colour_2: rgb_of(0, 122, 94),
        colour_3: rgb_of(27, 42, 65),
        colour_4: rgb_of(150, 2, 0),
        colour_6: rgb_of(0, 122, 163),
    }
}

impl Palette {
    /// The colour of strokes of `category`.
    pub fn color_of(&self, category: Category) -> (c: Color)
        ensures
            c == color_for(*self, category),
    {
        match category {
            Category::Stem => self.colour_0,
            Category::Cat1 => self.colour_1,
            Category::Cat2 => self.colour_2,
            Category::Cat3 => self.colour_3,
            Category::Cat4 => self.colour_4,
            Category::Cat6 => self.colour_6,
        }
    }

    /// The colours of a glyph on a dark background.
    pub fn dark() -> (p: Palette)
        ensures
            p == dark_colours(),
    {
        Palette {
            colour_0: Color::gray(242),
            colour_1: Color::rgb(58, 134, 255),
            colour_2: Color::rgb(251, 86, 7),
            colour_3: Color::rgb(162, 106, 241),
            colour_4: Color::rgb(255, 0, 110),
            colour_6: Color::rgb(255, 190, 11),
        }
    }

    /// The colours of a glyph on a light background.
    pub fn light() -> (p: Palette)
        ensures
            p == light_colours(),
    {
        Palette {
            colour_0: Color::rgb(4, 3, 15),
            colour_1: Color::rgb(93, 93, 91),
            colour_2: Color::rgb(0, 122, 94),
            colour_3: Color::rgb(27, 42, 65),
            colour_4: Color::rgb(150, 2, 0),
            colour_6: Color::rgb(0, 122, 163),
        }
    }

    /// The dark colours in dark mode, the light ones otherwise.
    pub fn for_mode(dark_mode: bool) -> (p: Palette)
        ensures
            p == if dark_mode {
                dark_colours()
            } else {
                light_colours()
            },
    {
        if dark_mode {
            Palette::dark()
        } else {
            Palette::light()
        }
    }
}

/// The width of every stroke of a glyph drawn at `scale`.
pub fn stroke_width(scale: i64) -> (w: i64)
    ensures
        w == stroke_width_for(scale as int),
{
    if scale < MIN_STROKE_WIDTH {
        MIN_STROKE_WIDTH
    } else {
        scale
    }
}

/// The scale that the caller named, or 1 where there is none.
pub fn scale_or_default(scale: Option<i64>) -> (s: i64)
    ensures
        s == match scale {
            Some(v) => v,
            None => 1,
        },
{
    match scale {
        Some(v) => v,
        None => DEFAULT_SCALE,
    }
}

} // verus!
