use cistercian_clock::geometry::{Point, QuadrantBox};
use cistercian_clock::strokes::{box_segments, Category, Segment};

fn sample_box() -> QuadrantBox {
    QuadrantBox {
        near: Point { x: 0, y: -16 },
        far: Point { x: 10, y: -16 },
        near_inset: Point { x: 0, y: -6 },
        far_inset: Point { x: 10, y: -6 },
    }
}

fn seg(from: Point, to: Point, category: Category) -> Segment {
    Segment { from, to, category }
}

#[test]
fn digit_zero_has_no_stroke() {
    assert_eq!(box_segments(&sample_box(), 0), vec![]);
}

#[test]
fn digit_one_is_the_outer_edge() {
    let b = sample_box();
    assert_eq!(box_segments(&b, 1), vec![seg(b.near, b.far, Category::Cat1)]);
}

#[test]
fn digit_two_is_the_inset_edge() {
    let b = sample_box();
    assert_eq!(box_segments(&b, 2), vec![seg(b.near_inset, b.far_inset, Category::Cat2)]);
}

#[test]
fn digit_three_is_its_own_diagonal() {
    let b = sample_box();
    assert_eq!(box_segments(&b, 3), vec![seg(b.near, b.far_inset, Category::Cat3)]);
}

#[test]
fn digit_four_is_the_other_diagonal() {
    let b = sample_box();
    assert_eq!(box_segments(&b, 4), vec![seg(b.near_inset, b.far, Category::Cat4)]);
}

#[test]
fn digit_five_joins_one_and_four() {
    let b = sample_box();
    assert_eq!(
        box_segments(&b, 5),
        vec![seg(b.near, b.far, Category::Cat1), seg(b.near_inset, b.far, Category::Cat4)]
    );
}

#[test]
fn digit_six_is_the_far_edge() {
    let b = sample_box();
    assert_eq!(box_segments(&b, 6), vec![seg(b.far, b.far_inset, Category::Cat6)]);
}

#[test]
fn digit_seven_joins_one_and_six() {
    let b = sample_box();
    assert_eq!(
        box_segments(&b, 7),
        vec![seg(b.near, b.far, Category::Cat1), seg(b.far, b.far_inset, Category::Cat6)]
    );
}

#[test]
fn digit_eight_joins_two_and_six() {
    let b = sample_box();
    assert_eq!(
        box_segments(&b, 8),
        vec![
            seg(b.near_inset, b.far_inset, Category::Cat2),
            seg(b.far, b.far_inset, Category::Cat6)
        ]
    );
}

#[test]
fn digit_nine_joins_one_two_and_six() {
    let b = sample_box();
    assert_eq!(
        box_segments(&b, 9),
        vec![
            seg(b.near, b.far, Category::Cat1),
            seg(b.near_inset, b.far_inset, Category::Cat2),
            seg(b.far, b.far_inset, Category::Cat6)
        ]
    );
}

#[test]
fn stroke_counts_by_digit() {
    let b = sample_box();
    let counts: Vec<usize> = (0..=9u8).map(|d| box_segments(&b, d).len()).collect();
    assert_eq!(counts, vec![0, 1, 1, 1, 1, 2, 1, 2, 2, 3]);
}

#[test]
fn three_is_no_union_of_other_digits() {
    let b = sample_box();
    let three = box_segments(&b, 3);
    for d in [0u8, 1, 2, 4, 5, 6, 7, 8, 9] {
        for s in box_segments(&b, d) {
            assert_ne!(s, three[0]);
        }
    }
}

#[test]
fn strokes_use_the_corners_of_any_box() {
    let b = QuadrantBox {
        near: Point { x: 1, y: 2 },
        far: Point { x: 3, y: 4 },
        near_inset: Point { x: 5, y: 6 },
        far_inset: Point { x: 7, y: 8 },
    };
    assert_eq!(
        box_segments(&b, 9),
        vec![
            seg(Point { x: 1, y: 2 }, Point { x: 3, y: 4 }, Category::Cat1),
            seg(Point { x: 5, y: 6 }, Point { x: 7, y: 8 }, Category::Cat2),
            seg(Point { x: 3, y: 4 }, Point { x: 7, y: 8 }, Category::Cat6)
        ]
    );
}
