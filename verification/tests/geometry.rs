use screenhop::geometry::{clamp_coordinate, Point, Rect};

#[test]
fn rect_new_keeps_its_arguments() {
    let rect = Rect::new(-5, 7, 11, 13);
    assert_eq!(rect, Rect { x: -5, y: 7, width: 11, height: 13 });
}

#[test]
fn rect_edges() {
    let rect = Rect::new(100, 200, 800, 600);
    assert_eq!(rect.min_x(), 100);
    assert_eq!(rect.min_y(), 200);
    assert_eq!(rect.max_x(), 900);
    assert_eq!(rect.max_y(), 800);
}

#[test]
fn rect_midpoints_round_down() {
    let rect = Rect::new(100, 200, 800, 601);
    assert_eq!(rect.mid_x(), 500);
    assert_eq!(rect.mid_y(), 500);
    assert_eq!(rect.center(), Point { x: 500, y: 500 });
    let rect = Rect::new(-3, -3, 1, 0);
    assert_eq!(rect.center(), Point { x: -3, y: -3 });
}

#[test]
fn rect_edges_at_the_limits() {
    let rect = Rect::new(i32::MAX, i32::MIN, u32::MAX, u32::MAX);
    assert_eq!(rect.min_x(), 2147483647);
    assert_eq!(rect.max_x(), 2147483647 + 4294967295);
    assert_eq!(rect.min_y(), -2147483648);
    assert_eq!(rect.max_y(), -2147483648 + 4294967295);
    assert_eq!(rect.mid_x(), 2147483647 + 2147483647);
    assert_eq!(rect.mid_y(), -2147483648 + 2147483647);
}

#[test]
fn rect_contains_its_edges() {
    let rect = Rect::new(10, 20, 30, 40);
    assert!(rect.contains(Point { x: 10, y: 20 }));
    assert!(rect.contains(Point { x: 40, y: 60 }));
    assert!(rect.contains(Point { x: 25, y: 40 }));
    assert!(!rect.contains(Point { x: 9, y: 20 }));
    assert!(!rect.contains(Point { x: 41, y: 60 }));
    assert!(!rect.contains(Point { x: 10, y: 19 }));
    assert!(!rect.contains(Point { x: 40, y: 61 }));
}

#[test]
fn rect_contains_agrees_with_its_edges() {
    let rect = Rect::new(-2, 3, 4, 2);
    for x in -5..8 {
        for y in -1..9 {
            let point = Point { x, y };
            let expected = rect.min_x() <= x
                && x <= rect.max_x()
                && rect.min_y() <= y
                && y <= rect.max_y();
            assert_eq!(rect.contains(point), expected);
        }
    }
}

#[test]
fn empty_rect_contains_its_corner_only() {
    let rect = Rect::new(5, 5, 0, 0);
    assert!(rect.contains(Point { x: 5, y: 5 }));
    assert!(!rect.contains(Point { x: 6, y: 5 }));
    assert!(!rect.contains(Point { x: 5, y: 4 }));
}

#[test]
fn clamp_coordinate_holds_to_i32() {
    assert_eq!(clamp_coordinate(0), 0);
    assert_eq!(clamp_coordinate(-17), -17);
    assert_eq!(clamp_coordinate(i32::MAX as i64), i32::MAX);
    assert_eq!(clamp_coordinate(i32::MAX as i64 + 1), i32::MAX);
    assert_eq!(clamp_coordinate(i32::MIN as i64), i32::MIN);
    assert_eq!(clamp_coordinate(i32::MIN as i64 - 1), i32::MIN);
    assert_eq!(clamp_coordinate(i64::MAX), i32::MAX);
    assert_eq!(clamp_coordinate(i64::MIN), i32::MIN);
}
