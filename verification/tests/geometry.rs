use freq_gantt::geometry::{edge_crossed, polygon_contains, rectangle_points, Point, EPSILON_INV};

fn receiver_rectangle() -> Vec<Point> {
    vec![
        Point { x: 20_000, y: 0 },
        Point { x: 6_000_000, y: 0 },
        Point { x: 6_000_000, y: 100_000 },
        Point { x: 20_000, y: 100_000 },
    ]
}

#[test]
fn receiver_rectangle_contains_its_middle() {
    assert!(polygon_contains(&receiver_rectangle(), 3_000_000, 50_000));
}

#[test]
fn receiver_rectangle_excludes_points_above_and_left() {
    let r = receiver_rectangle();
    assert!(!polygon_contains(&r, 3_000_000, 150_000));
    assert!(!polygon_contains(&r, 10_000, 50_000));
}

#[test]
fn rectangle_is_closed_below_and_left_open_above_and_right() {
    let r = receiver_rectangle();
    assert!(polygon_contains(&r, 20_000, 0));
    assert!(polygon_contains(&r, 20_000, 99_999));
    assert!(polygon_contains(&r, 5_999_999, 0));
    assert!(!polygon_contains(&r, 6_000_000, 50_000));
    assert!(!polygon_contains(&r, 3_000_000, 100_000));
    assert!(!polygon_contains(&r, 19_999, 50_000));
    assert!(!polygon_contains(&r, 3_000_000, -1));
}

#[test]
fn rectangle_points_walks_the_lower_side_first() {
    assert_eq!(rectangle_points(20_000, 6_000_000, 0, 100_000), receiver_rectangle());
}

#[test]
fn triangle_contains_inner_points_only() {
    let t = vec![Point { x: 0, y: 0 }, Point { x: 10, y: 0 }, Point { x: 0, y: 10 }];
    assert!(polygon_contains(&t, 1, 1));
    assert!(polygon_contains(&t, 3, 3));
    assert!(polygon_contains(&t, 0, 5));
    assert!(!polygon_contains(&t, 6, 6));
    assert!(!polygon_contains(&t, -1, 5));
    assert!(!polygon_contains(&t, 5, 10));
    assert!(!polygon_contains(&t, 5, -1));
}

#[test]
fn point_on_an_edge_that_leans_left_counts_as_left_of_it() {
    // The edge between (10, 0) and (0, 10) passes through (5, 5).  The small
    // constant makes the quotient a little smaller in size, which puts the
    // crossing a little to the right of the point, whichever way the edge is
    // walked.
    let low = Point { x: 10, y: 0 };
    let high = Point { x: 0, y: 10 };
    assert!(edge_crossed(high, low, 5, 5));
    assert!(edge_crossed(low, high, 5, 5));
    assert!(edge_crossed(high, low, 4, 5));
    assert!(edge_crossed(low, high, 4, 5));
    assert!(!edge_crossed(high, low, 6, 5));
    assert!(!edge_crossed(low, high, 6, 5));
}

#[test]
fn point_on_an_edge_that_leans_right_counts_as_right_of_it() {
    // The edge between (0, 0) and (10, 10) passes through (5, 5) too, and the
    // same constant puts the crossing a little to the left of the point.
    let low = Point { x: 0, y: 0 };
    let high = Point { x: 10, y: 10 };
    assert!(!edge_crossed(high, low, 5, 5));
    assert!(!edge_crossed(low, high, 5, 5));
    assert!(edge_crossed(high, low, 4, 5));
    assert!(edge_crossed(low, high, 4, 5));
    assert!(!edge_crossed(high, low, 6, 5));
    assert!(!edge_crossed(low, high, 6, 5));
}

#[test]
fn edge_that_does_not_straddle_the_height_never_toggles() {
    let a = Point { x: 0, y: 0 };
    let b = Point { x: 10, y: 0 };
    assert!(!edge_crossed(a, b, -5, 0));
    assert!(!edge_crossed(a, b, 5, 0));
    let c = Point { x: 10, y: 10 };
    assert!(!edge_crossed(b, c, 0, 10));
    assert!(!edge_crossed(b, c, 0, -1));
    assert!(edge_crossed(b, c, 0, 0));
}

#[test]
fn extreme_coordinates_do_not_overflow() {
    let p = vec![
        Point { x: i32::MIN, y: i32::MIN },
        Point { x: i32::MAX, y: i32::MIN },
        Point { x: i32::MAX, y: i32::MAX },
        Point { x: i32::MIN, y: i32::MAX },
    ];
    assert!(polygon_contains(&p, 0, 0));
    assert!(polygon_contains(&p, i32::MIN, i32::MIN));
    assert!(!polygon_contains(&p, i32::MAX, i32::MAX));
    let d = vec![
        Point { x: i32::MIN, y: i32::MIN },
        Point { x: i32::MAX, y: i32::MAX },
        Point { x: i32::MIN, y: i32::MAX },
    ];
    assert!(polygon_contains(&d, -1, 0));
    assert!(!polygon_contains(&d, 1, 0));
}

#[test]
fn small_constant_is_two_to_the_minus_52() {
    assert_eq!(EPSILON_INV, 1i128 << 52);
}
