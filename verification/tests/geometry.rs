use screencrop::geometry::{Bounds, Point, SelectionRect};

fn rect(sx: i32, sy: i32, ex: i32, ey: i32) -> SelectionRect {
    SelectionRect {
        start: Point { x: sx, y: sy },
        end: Point { x: ex, y: ey },
    }
}

#[test]
fn normalize_orders_each_axis() {
    let b = rect(200, 50, 50, 150).normalized();
    assert_eq!(
        b,
        Bounds {
            min_x: 50,
            min_y: 50,
            max_x: 200,
            max_y: 150
        }
    );
}

#[test]
fn normalize_idempotent_concrete() {
    let b = rect(200, 150, 50, 50).normalized();
    let again = SelectionRect {
        start: Point {
            x: b.min_x,
            y: b.min_y,
        },
        end: Point {
            x: b.max_x,
            y: b.max_y,
        },
    }
    .normalized();
    assert_eq!(again, b);
}

#[test]
fn normalize_swap_symmetric_concrete() {
    let r = rect(37, -12, -5, 90);
    let s = rect(-5, 90, 37, -12);
    assert_eq!(r.normalized(), s.normalized());
}

#[test]
fn normalize_zero_area() {
    let b = rect(70, 70, 70, 70).normalized();
    assert_eq!(
        b,
        Bounds {
            min_x: 70,
            min_y: 70,
            max_x: 70,
            max_y: 70
        }
    );
}

#[test]
fn distance_squared_exact() {
    let d = screencrop::geometry::distance_sq(Point { x: 52, y: 52 }, Point { x: 50, y: 50 });
    assert_eq!(d, 8);
    let d2 = screencrop::geometry::distance_sq(Point { x: 10, y: 10 }, Point { x: 50, y: 50 });
    assert_eq!(d2, 3200);
}

#[test]
fn distance_squared_extreme_coordinates() {
    let d = screencrop::geometry::distance_sq(
        Point {
            x: i32::MIN,
            y: i32::MIN,
        },
        Point {
            x: i32::MAX,
            y: i32::MAX,
        },
    );
    let span: i128 = i32::MAX as i128 - i32::MIN as i128;
    assert_eq!(d, 2 * span * span);
}

#[test]
fn contains_is_inclusive() {
    let b = rect(50, 50, 200, 150).normalized();
    assert!(b.contains(Point { x: 50, y: 50 }));
    assert!(b.contains(Point { x: 200, y: 150 }));
    assert!(b.contains(Point { x: 125, y: 100 }));
    assert!(!b.contains(Point { x: 49, y: 100 }));
    assert!(!b.contains(Point { x: 125, y: 151 }));
}

#[test]
fn corner_accessors() {
    let b = rect(200, 150, 50, 50).normalized();
    assert_eq!(b.top_left(), Point { x: 50, y: 50 });
    assert_eq!(b.top_right(), Point { x: 200, y: 50 });
    assert_eq!(b.bottom_left(), Point { x: 50, y: 150 });
    assert_eq!(b.bottom_right(), Point { x: 200, y: 150 });
}
