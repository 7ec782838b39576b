//! The strokes that spell a digit inside one quadrant box.

use vstd::prelude::*;
use crate::geometry::{Point, QuadrantBox};

verus! {

/// What a stroke is, which decides its colour.
#[derive(Clone, Copy, Debug, PartialEq, Eq, Structural)]
pub enum Category {
    /// The vertical stem that every glyph has.
    Stem,
    /// The edge of the box at the end of the stem: `near` to `far`.
    Cat1,
    /// The edge of the box towards the middle of the stem: `near_inset` to `far_inset`.
    Cat2,
    /// The diagonal from `near` to `far_inset`.
    Cat3,
    /// The diagonal from `near_inset` to `far`.
    Cat4,
    /// The edge of the box away from the stem: `far` to `far_inset`.
    Cat6,
}

/// A straight stroke between two points.
#[derive(Clone, Copy, Debug, PartialEq, Eq, Structural)]
pub struct Segment {
    pub from: Point,
    pub to: Point,
    pub category: Category,
}

/// The stroke of `category` in the box `b`. The stem is no stroke of a box;
/// for it the result is the degenerate stroke at `near`.
pub open spec fn stroke_of(b: QuadrantBox, category: Category) -> Segment {
    match category {
        Category::Stem => Segment { from: b.near, to: b.near, category },
        Category::Cat1 => Segment { from: b.near, to: b.far, category },
        Category::Cat2 => Segment { from: b.near_inset, to: b.far_inset, category },
        Category::Cat3 => Segment { from: b.near, to: b.far_inset, category },
        Category::Cat4 => Segment { from: b.near_inset, to: b.far, category },
        Category::Cat6 => Segment { from: b.far, to: b.far_inset, category },
    }
}

/// The categories of the strokes that spell `digit`, in drawing order.
/// Three is a diagonal of its own and no union of other digits.
pub open spec fn digit_categories(digit: int) -> Seq<Category> {
    if digit == 1 {
        seq![Category::Cat1]
    } else if digit == 2 {
        seq![Category::Cat2]
    } else if digit == 3 {
        seq![Category::Cat3]
    } else if digit == 4 {
        seq![Category::Cat4]
    } else if digit == 5 {
        seq![Category::Cat1, Category::Cat4]
    } else if digit == 6 {
        seq![Category::Cat6]
    } else if digit == 7 {
        seq![Category::Cat1, Category::Cat6]
    } else if digit == 8 {
        seq![Category::Cat2, Category::Cat6]
    } else if digit == 9 {
        seq![Category::Cat1, Category::Cat2, Category::Cat6]
    } else {
        seq![]
    }
}

/// The strokes that spell `digit` in the box `b`.
pub open spec fn box_segments_of(b: QuadrantBox, digit: int) -> Seq<Segment> {
    digit_categories(digit).map_values(|c: Category| stroke_of(b, c))
}

/// The strokes that spell `digit` in the box `b`: none for 0, and for 1 to 9
/// those of the table in `digit_categories`.
pub fn box_segments(b: &QuadrantBox, digit: u8) -> (segments: Vec<Segment>)
    requires
        digit <= 9,
    ensures
        segments@ == box_segments_of(*b, digit as int),
{
    let mut segments: Vec<Segment> = Vec::new();
    if digit == 1 || digit == 5 || digit == 7 || digit == 9 {
        segments.push(Segment { from: b.near, to: b.far, category: Category::Cat1 });
    }
    if digit == 2 || digit == 8 || digit == 9 {
        segments.push(
            Segment { from: b.near_inset, to: b.far_inset, category: Category::Cat2 },
        );
    }
    if digit == 3 {
        segments.push(Segment { from: b.near, to: b.far_inset, category: Category::Cat3 });
    }
    if digit == 4 || digit == 5 {
        segments.push(Segment { from: b.near_inset, to: b.far, category: Category::Cat4 });
    }
    if digit > 5 {
        segments.push(Segment { from: b.far, to: b.far_inset, category: Category::Cat6 });
    }
    assert(segments@ =~= box_segments_of(*b, digit as int));
    segments
}

/// The strokes of each digit, written out corner by corner.
pub proof fn lemma_stroke_table(b: QuadrantBox)
    ensures
        box_segments_of(b, 0) == Seq::<Segment>::empty(),
        box_segments_of(b, 1) == seq![Segment { from: b.near, to: b.far, category: Category::Cat1 }],
        box_segments_of(b, 2) == seq![
            Segment { from: b.near_inset, to: b.far_inset, category: Category::Cat2 },
        ],
        box_segments_of(b, 3) == seq![
            Segment { from: b.near, to: b.far_inset, category: Category::Cat3 },
        ],
        box_segments_of(b, 4) == seq![
            Segment { from: b.near_inset, to: b.far, category: Category::Cat4 },
        ],
        box_segments_of(b, 5) == seq![
            Segment { from: b.near, to: b.far, category: Category::Cat1 },
            Segment { from: b.near_inset, to: b.far, category: Category::Cat4 },
        ],
        box_segments_of(b, 6) == seq![
            Segment { from: b.far, to: b.far_inset, category: Category::Cat6 },
        ],
        box_segments_of(b, 7) == seq![
            Segment { from: b.near, to: b.far, category: Category::Cat1 },
            Segment { from: b.far, to: b.far_inset, category: Category::Cat6 },
        ],
        box_segments_of(b, 8) == seq![
            Segment { from: b.near_inset, to: b.far_inset, category: Category::Cat2 },
            Segment { from: b.far, to: b.far_inset, category: Category::Cat6 },
        ],
        box_segments_of(b, 9) == seq![
            Segment { from: b.near, to: b.far, category: Category::Cat1 },
            Segment { from: b.near_inset, to: b.far_inset, category: Category::Cat2 },
            Segment { from: b.far, to: b.far_inset, category: Category::Cat6 },
        ],
{
    assert(box_segments_of(b, 0) =~= Seq::<Segment>::empty());
    assert(box_segments_of(b, 1) =~= seq![
        Segment { from: b.near, to: b.far, category: Category::Cat1 },
    ]);
    assert(box_segments_of(b, 2) =~= seq![
        Segment { from: b.near_inset, to: b.far_inset, category: Category::Cat2 },
    ]);
    assert(box_segments_of(b, 3) =~= seq![
        Segment { from: b.near, to: b.far_inset, category: Category::Cat3 },
    ]);
    assert(box_segments_of(b, 4) =~= seq![
        Segment { from: b.near_inset, to: b.far, category: Category::Cat4 },
    ]);
    assert(box_segments_of(b, 5) =~= seq![
        Segment { from: b.near, to: b.far, category: Category::Cat1 },
        Segment { from: b.near_inset, to: b.far, category: Category::Cat4 },
    ]);
    assert(box_segments_of(b, 6) =~= seq![
        Segment { from: b.far, to: b.far_inset, category: Category::Cat6 },
    ]);
    assert(box_segments_of(b, 7) =~= seq![
        Segment { from: b.near, to: b.far, category: Category::Cat1 },
        Segment { from: b.far, to: b.far_inset, category: Category::Cat6 },
    ]);
    assert(box_segments_of(b, 8) =~= seq![
        Segment { from: b.near_inset, to: b.far_inset, category: Category::Cat2 },
        Segment { from: b.far, to: b.far_inset, category: Category::Cat6 },
    ]);
    assert(box_segments_of(b, 9) =~= seq![
        Segment { from: b.near, to: b.far, category: Category::Cat1 },
        Segment { from: b.near_inset, to: b.far_inset, category: Category::Cat2 },
        Segment { from: b.far, to: b.far_inset, category: Category::Cat6 },
    ]);
}

/// Zero has no stroke; one, two, three, four and six have one; five, seven
/// and eight have two.
pub proof fn lemma_stroke_count(b: QuadrantBox, digit: int)
    requires
        0 <= digit <= 8,
    ensures
        digit == 0 ==> box_segments_of(b, digit).len() == 0,
        digit == 1 || digit == 2 || digit == 3 || digit == 4 || digit == 6 ==> box_segments_of(
            b,
            digit,
        ).len() == 1,
        digit == 5 || digit == 7 || digit == 8 ==> box_segments_of(b, digit).len() == 2,
{
}

/// Nine joins the three strokes of one, two and six.
pub proof fn lemma_nine_strokes(b: QuadrantBox)
    ensures
        box_segments_of(b, 9) == box_segments_of(b, 1) + box_segments_of(b, 2) + box_segments_of(
            b,
            6,
        ),
        box_segments_of(b, 9).len() == 3,
{
    assert(box_segments_of(b, 9) =~= box_segments_of(b, 1) + box_segments_of(b, 2)
        + box_segments_of(b, 6));
}

} // verus!
