use dodger::geometry::Rect;

fn rect(x: i64, y: i64, width: u64, height: u64) -> Rect {
    Rect { x, y, width, height }
}

#[test]
fn rectangles_that_share_area_overlap() {
    let a = rect(0, 0, 10, 10);
    assert!(a.overlaps(rect(9, 9, 10, 10)));
    assert!(a.overlaps(rect(-9, 9, 10, 10)));
    assert!(a.overlaps(rect(0, 0, 10, 10)));
    assert!(a.overlaps(rect(3, -2, 2, 2)));
}

#[test]
fn rectangles_that_only_touch_do_not_overlap() {
    let a = rect(0, 0, 10, 10);
    assert!(!a.overlaps(rect(10, 0, 10, 10)));
    assert!(!a.overlaps(rect(-10, 0, 10, 10)));
    assert!(!a.overlaps(rect(0, 10, 10, 10)));
    assert!(!a.overlaps(rect(0, -10, 10, 10)));
    assert!(!a.overlaps(rect(10, 10, 10, 10)));
}

#[test]
fn one_separating_axis_is_enough_to_miss() {
    let a = rect(0, 0, 10, 10);
    assert!(!a.overlaps(rect(0, 11, 10, 10)));
    assert!(!a.overlaps(rect(11, 0, 10, 10)));
    assert!(!a.overlaps(rect(100, 100, 10, 10)));
}

#[test]
fn overlap_counts_odd_extents_exactly() {
    // Half extents of 2.5 and 1.5 reach 4 apart, not 4 or more.
    let a = rect(0, 0, 5, 5);
    assert!(a.overlaps(rect(3, 0, 3, 3)));
    assert!(!a.overlaps(rect(4, 0, 3, 3)));
    assert!(a.overlaps(rect(0, -3, 3, 3)));
    assert!(!a.overlaps(rect(0, -4, 3, 3)));
}

#[test]
fn overlap_is_symmetric() {
    let a = rect(5, -7, 12, 4);
    let b = rect(-2, -6, 3, 9);
    let c = rect(40, -6, 3, 9);
    assert_eq!(a.overlaps(b), b.overlaps(a));
    assert_eq!(a.overlaps(c), c.overlaps(a));
    assert!(a.overlaps(b));
    assert!(!a.overlaps(c));
}

#[test]
fn a_rectangle_without_area_overlaps_what_contains_its_centre() {
    let point = rect(1, 1, 0, 0);
    assert!(point.overlaps(rect(0, 0, 10, 10)));
    assert!(!point.overlaps(rect(6, 0, 10, 10)));
    assert!(!point.overlaps(point));
}

#[test]
fn overlap_holds_at_the_ends_of_the_number_range() {
    let low = rect(i64::MIN, i64::MIN, 2, 2);
    let high = rect(i64::MAX, i64::MAX, 2, 2);
    let everywhere = rect(0, 0, u64::MAX, u64::MAX);
    assert!(!low.overlaps(high));
    assert!(low.overlaps(low));
    assert!(everywhere.overlaps(rect(i64::MAX, 0, u64::MAX, 1)));
    assert!(!everywhere.overlaps(rect(i64::MIN, 0, 0, 1)));
    assert!(everywhere.overlaps(rect(i64::MIN, 0, 2, 1)));
}
