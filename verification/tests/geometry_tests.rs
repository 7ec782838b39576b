use cistercian_clock::error::RenderError;
use cistercian_clock::geometry::{
    Point, Quadrant, QuadrantBox, StemGeometry, BOX_SIDE_UNITS, HALF_HEIGHT_UNITS,
};

fn pt(x: i64, y: i64) -> Point {
    Point { x, y }
}

fn stem(x: i64, y: i64, scale: i64) -> StemGeometry {
    StemGeometry::new(pt(x, y), scale).unwrap()
}

#[test]
fn stem_keeps_centre_and_scale() {
    let s = stem(7, -3, 4);
    assert_eq!(s.center(), pt(7, -3));
    assert_eq!(s.scale(), 4);
}

#[test]
fn half_height_is_sixteen_times_the_scale() {
    assert_eq!(HALF_HEIGHT_UNITS, 16);
    assert_eq!(stem(0, 0, 1).half_height(), 16);
    assert_eq!(stem(0, 0, 4).half_height(), 64);
    assert_eq!(stem(100, 100, 25).half_height(), 400);
}

#[test]
fn box_side_is_ten_times_the_scale() {
    assert_eq!(BOX_SIDE_UNITS, 10);
    assert_eq!(stem(0, 0, 1).box_side(), 10);
    assert_eq!(stem(0, 0, 4).box_side(), 40);
}

#[test]
fn stem_ends_lie_above_and_below_the_centre() {
    let s = stem(50, 60, 2);
    assert_eq!(s.top(), pt(50, 28));
    assert_eq!(s.bottom(), pt(50, 92));
}

#[test]
fn zero_scale_is_invalid() {
    assert_eq!(StemGeometry::new(pt(0, 0), 0), Err(RenderError::InvalidScale));
}

#[test]
fn negative_scale_is_invalid() {
    assert_eq!(StemGeometry::new(pt(0, 0), -1), Err(RenderError::InvalidScale));
    assert_eq!(StemGeometry::new(pt(5, 5), i64::MIN), Err(RenderError::InvalidScale));
}

#[test]
fn huge_scale_overflows() {
    assert_eq!(StemGeometry::new(pt(0, 0), i64::MAX), Err(RenderError::CoordinateOverflow));
    assert_eq!(
        StemGeometry::new(pt(0, 0), i64::MAX / 16 + 1),
        Err(RenderError::CoordinateOverflow)
    );
}

#[test]
fn largest_scale_at_the_origin_fits() {
    let s = i64::MAX / 16;
    let g = StemGeometry::new(pt(0, 0), s).unwrap();
    assert_eq!(g.half_height(), 16 * s);
    assert_eq!(g.quadrant_box(Quadrant::Thousands).near, pt(0, 16 * s));
}

#[test]
fn centre_at_the_edge_fits_exactly_or_overflows() {
    assert!(StemGeometry::new(pt(0, i64::MAX - 16), 1).is_ok());
    assert_eq!(
        StemGeometry::new(pt(0, i64::MAX - 15), 1),
        Err(RenderError::CoordinateOverflow)
    );
    assert!(StemGeometry::new(pt(0, i64::MIN + 16), 1).is_ok());
    assert_eq!(
        StemGeometry::new(pt(0, i64::MIN + 15), 1),
        Err(RenderError::CoordinateOverflow)
    );
    assert!(StemGeometry::new(pt(i64::MAX - 10, 0), 1).is_ok());
    assert_eq!(
        StemGeometry::new(pt(i64::MAX - 9, 0), 1),
        Err(RenderError::CoordinateOverflow)
    );
    assert!(StemGeometry::new(pt(i64::MIN + 10, 0), 1).is_ok());
    assert_eq!(
        StemGeometry::new(pt(i64::MIN + 9, 0), 1),
        Err(RenderError::CoordinateOverflow)
    );
}

#[test]
fn units_box_hangs_top_right() {
    let b = stem(0, 0, 1).quadrant_box(Quadrant::Units);
    assert_eq!(
        b,
        QuadrantBox {
            near: pt(0, -16),
            far: pt(10, -16),
            near_inset: pt(0, -6),
            far_inset: pt(10, -6),
        }
    );
}

#[test]
fn tens_box_hangs_top_left() {
    let b = stem(0, 0, 1).quadrant_box(Quadrant::Tens);
    assert_eq!(
        b,
        QuadrantBox {
            near: pt(0, -16),
            far: pt(-10, -16),
            near_inset: pt(0, -6),
            far_inset: pt(-10, -6),
        }
    );
}

#[test]
fn hundreds_box_hangs_bottom_right() {
    let b = stem(0, 0, 1).quadrant_box(Quadrant::Hundreds);
    assert_eq!(
        b,
        QuadrantBox {
            near: pt(0, 16),
            far: pt(10, 16),
            near_inset: pt(0, 6),
            far_inset: pt(10, 6),
        }
    );
}

#[test]
fn thousands_box_hangs_bottom_left() {
    let b = stem(0, 0, 1).quadrant_box(Quadrant::Thousands);
    assert_eq!(
        b,
        QuadrantBox {
            near: pt(0, 16),
            far: pt(-10, 16),
            near_inset: pt(0, 6),
            far_inset: pt(-10, 6),
        }
    );
}

#[test]
fn boxes_follow_centre_and_scale() {
    let s = stem(100, 200, 4);
    assert_eq!(
        s.quadrant_box(Quadrant::Units),
        QuadrantBox {
            near: pt(100, 136),
            far: pt(140, 136),
            near_inset: pt(100, 176),
            far_inset: pt(140, 176),
        }
    );
    assert_eq!(
        s.quadrant_box(Quadrant::Thousands),
        QuadrantBox {
            near: pt(100, 264),
            far: pt(60, 264),
            near_inset: pt(100, 224),
            far_inset: pt(60, 224),
        }
    );
}

fn mirror_x(p: Point, axis: i64) -> Point {
    pt(2 * axis - p.x, p.y)
}

fn mirror_y(p: Point, axis: i64) -> Point {
    pt(p.x, 2 * axis - p.y)
}

fn mirror_box_x(b: QuadrantBox, axis: i64) -> QuadrantBox {
    QuadrantBox {
        near: mirror_x(b.near, axis),
        far: mirror_x(b.far, axis),
        near_inset: mirror_x(b.near_inset, axis),
        far_inset: mirror_x(b.far_inset, axis),
    }
}

fn mirror_box_y(b: QuadrantBox, axis: i64) -> QuadrantBox {
    QuadrantBox {
        near: mirror_y(b.near, axis),
        far: mirror_y(b.far, axis),
        near_inset: mirror_y(b.near_inset, axis),
        far_inset: mirror_y(b.far_inset, axis),
    }
}

#[test]
fn left_boxes_mirror_right_boxes_in_the_stem() {
    for (x, y, scale) in [(0, 0, 1), (13, -7, 3), (-250, 999, 12)] {
        let s = stem(x, y, scale);
        assert_eq!(
            s.quadrant_box(Quadrant::Tens),
            mirror_box_x(s.quadrant_box(Quadrant::Units), x)
        );
        assert_eq!(
            s.quadrant_box(Quadrant::Thousands),
            mirror_box_x(s.quadrant_box(Quadrant::Hundreds), x)
        );
    }
}

#[test]
fn lower_boxes_mirror_upper_boxes_in_the_midline() {
    for (x, y, scale) in [(0, 0, 1), (13, -7, 3), (-250, 999, 12)] {
        let s = stem(x, y, scale);
        assert_eq!(
            s.quadrant_box(Quadrant::Hundreds),
            mirror_box_y(s.quadrant_box(Quadrant::Units), y)
        );
        assert_eq!(
            s.quadrant_box(Quadrant::Thousands),
            mirror_box_y(s.quadrant_box(Quadrant::Tens), y)
        );
    }
}
