//! A drawing surface that keeps what was drawn on it, for a caller to replay.

use vstd::prelude::*;
use crate::geometry::Point;
use crate::palette::Color;

verus! {

/// One line drawn on a surface.
#[derive(Clone, Copy, Debug, PartialEq, Eq, Structural)]
pub struct DrawCall {
    pub from: Point,
    pub to: Point,
    pub stroke_width: i64,
    pub color: Color,
}

/// What a surface holds: the lines in the order in which they were drawn,
/// and the labels in the order in which they were written.
pub struct SurfaceView {
    pub lines: Seq<DrawCall>,
    pub labels: Seq<Seq<char>>,
}

/// A surface that records every line and every label.
#[derive(Debug)]
pub struct Surface {
    lines: Vec<DrawCall>,
    labels: Vec<String>,
}

/// The characters of each string of `labels`.
pub open spec fn texts_of(labels: Seq<String>) -> Seq<Seq<char>> {
    labels.map_values(|s: String| s@)
}

impl View for Surface {
    type V = SurfaceView;

    closed spec fn view(&self) -> SurfaceView {
        SurfaceView { lines: self.lines@, labels: texts_of(self.labels@) }
    }
}

impl Surface {
    /// A surface on which nothing has been drawn.
    pub fn new() -> (s: Surface)
        ensures
            s@.lines == Seq::<DrawCall>::empty(),
            s@.labels == Seq::<Seq<char>>::empty(),
    {
        let s = Surface { lines: Vec::new(), labels: Vec::new() };
        assert(s@.labels =~= Seq::<Seq<char>>::empty());
        s
    }

    /// Draws one line. Lines drawn before stay, in their order, and so do the labels.
    pub fn draw_line(&mut self, from: Point, to: Point, stroke_width: i64, color: Color)
        ensures
            final(self)@.lines == old(self)@.lines.push(
                DrawCall { from, to, stroke_width, color },
            ),
            final(self)@.labels == old(self)@.labels,
    {
        self.lines.push(DrawCall { from, to, stroke_width, color });
    }

    /// Writes one label. Labels written before stay, in their order, and so do the lines.
    pub fn draw_label(&mut self, text: String)
        ensures
            final(self)@.labels == old(self)@.labels.push(text@),
            final(self)@.lines == old(self)@.lines,
    {
        self.labels.push(text);
        assert(texts_of(self.labels@) =~= texts_of(old(self).labels@).push(text@));
    }

    /// The lines drawn so far, first drawn first.
    pub fn lines(&self) -> (l: &Vec<DrawCall>)
        ensures
            l@ == self@.lines,
    {
        &self.lines
    }

    /// The labels written so far, first written first.
    pub fn labels(&self) -> (l: &Vec<String>)
        ensures
            texts_of(l@) == self@.labels,
    {
        &self.labels
    }
}

} // verus!
