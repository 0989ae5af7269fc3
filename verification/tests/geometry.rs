use vagabond_server::geometry::{Point2, Rect};

#[test]
fn overlapping_rectangles_are_detected() {
    let a = Rect::new(Point2::new(0, 0), Point2::new(10, 10));
    let b = Rect::new(Point2::new(5, 5), Point2::new(15, 15));
    assert!(a.check_bounds(&b));
    assert!(b.check_bounds(&a));
}

#[test]
fn disjoint_rectangles_do_not_overlap() {
    let a = Rect::new(Point2::new(0, 0), Point2::new(10, 10));
    let b = Rect::new(Point2::new(20, 20), Point2::new(30, 30));
    assert!(!a.check_bounds(&b));
    assert!(!b.check_bounds(&a));
}

#[test]
fn check_bounds_is_symmetric() {
    let rects = [
        Rect::new(Point2::new(0, 0), Point2::new(10, 10)),
        Rect::new(Point2::new(5, -3), Point2::new(12, 4)),
        Rect::new(Point2::new(10, 0), Point2::new(20, 10)),
        Rect::new(Point2::new(-7, -7), Point2::new(-1, -1)),
    ];
    for a in rects.iter() {
        for b in rects.iter() {
            assert_eq!(a.check_bounds(b), b.check_bounds(a));
        }
    }
}

#[test]
fn touching_edges_do_not_count_as_overlap() {
    // shares only the vertical edge x == 10
    let a = Rect::new(Point2::new(0, 0), Point2::new(10, 10));
    let b = Rect::new(Point2::new(10, 0), Point2::new(20, 10));
    assert!(!a.check_bounds(&b));
    assert!(!b.check_bounds(&a));

    // shares only the horizontal edge y == 10
    let c = Rect::new(Point2::new(0, 10), Point2::new(10, 20));
    assert!(!a.check_bounds(&c));
    assert!(!c.check_bounds(&a));

    // shares only a corner
    let d = Rect::new(Point2::new(10, 10), Point2::new(20, 20));
    assert!(!a.check_bounds(&d));
    assert!(!d.check_bounds(&a));
}

#[test]
fn overlap_on_one_axis_only_is_not_overlap() {
    let a = Rect::new(Point2::new(0, 0), Point2::new(10, 10));
    // overlaps on x, disjoint on y
    let b = Rect::new(Point2::new(5, 20), Point2::new(15, 30));
    assert!(!a.check_bounds(&b));
    // overlaps on y, disjoint on x
    let c = Rect::new(Point2::new(20, 5), Point2::new(30, 15));
    assert!(!a.check_bounds(&c));
}

#[test]
fn translate_shifts_both_corners() {
    let mut r = Rect::new(Point2::new(1, 2), Point2::new(3, 4));
    r.translate(&Point2::new(10, -20));
    assert_eq!(r.top_left, Point2::new(11, -18));
    assert_eq!(r.bottom_right, Point2::new(13, -16));
}
