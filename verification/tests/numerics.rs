use bot_controller::num::div_trunc;
use bot_controller::num::isqrt;
use bot_controller::geom::Point;

#[test]
fn div_trunc_rounds_toward_zero() {
    assert_eq!(div_trunc(7, 2), 3);
    assert_eq!(div_trunc(-7, 2), -3);
    assert_eq!(div_trunc(6, 3), 2);
    assert_eq!(div_trunc(-6, 3), -2);
    assert_eq!(div_trunc(0, 5), 0);
    assert_eq!(div_trunc(1, 1000), 0);
    assert_eq!(div_trunc(-1, 1000), 0);
}

#[test]
fn isqrt_exact_and_floor() {
    assert_eq!(isqrt(0), 0);
    assert_eq!(isqrt(1), 1);
    assert_eq!(isqrt(3), 1);
    assert_eq!(isqrt(4), 2);
    assert_eq!(isqrt(999_999), 999);
    assert_eq!(isqrt(1_000_000), 1000);
    assert_eq!(isqrt(2_000_000_000_000_000_000), 1_414_213_562);
}

#[test]
fn point_arithmetic() {
    let a = Point { x: 3000, y: -4000 };
    let b = Point { x: 1000, y: 2000 };
    assert_eq!(a.add_p(b), Point { x: 4000, y: -2000 });
    assert_eq!(a.sub_p(b), Point { x: 2000, y: -6000 });
    assert_eq!(a.perp(), Point { x: 4000, y: 3000 });
    assert_eq!(a.cross(b), 3000 * 2000 - (-4000) * 1000);
    assert_eq!(a.opposite_through(Point { x: 0, y: 0 }), Point { x: -3000, y: 4000 });
    assert_eq!(a.length(), 5000);
    assert_eq!(Point::from_units(2, -3), Point { x: 2000, y: -3000 });
    assert_eq!(Point::zero(), Point { x: 0, y: 0 });
}

#[test]
fn length_of_skewed_vector_rounds_down() {
    let v = Point { x: 1000, y: 1000 };
    assert_eq!(v.length(), 1414);
}
