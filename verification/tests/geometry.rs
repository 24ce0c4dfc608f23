use game_core::directions::Direction;
use game_core::fixed::{div_toward_zero, isqrt, saturate, Fixed};
use game_core::vector2d::Vector2D;
use game_core::vector2di::Vector2Di;

fn fx(raw: i32) -> Fixed {
    Fixed::from_raw(raw)
}

fn v(x: i32, y: i32) -> Vector2D {
    Vector2D::new(Fixed::from_int(x), Fixed::from_int(y))
}

#[test]
fn fixed_arithmetic_is_exact_to_a_thousandth() {
    assert_eq!(Fixed::from_int(100).raw, 100_000);
    assert_eq!(Fixed::from_int(100).mul(fx(16)), fx(1_600));
    assert_eq!(Fixed::from_int(-100).mul(fx(16)), fx(-1_600));
    assert_eq!(fx(1).mul(fx(999)), fx(0));
    assert_eq!(fx(-1).mul(fx(999)), fx(0));
    assert_eq!(fx(1_500).add(fx(2_250)), fx(3_750));
    assert_eq!(fx(1_500).sub(fx(2_250)), fx(-750));
    assert_eq!(fx(-7).neg(), fx(7));
    assert_eq!(fx(-7).abs(), fx(7));
    assert_eq!(fx(7).abs(), fx(7));
    assert_eq!(fx(64_000).halved(), fx(32_000));
    assert_eq!(fx(-3).halved(), fx(-1));
    assert_eq!(Fixed::zero(), fx(0));
    assert_eq!(Fixed::epsilon(), fx(1));
}

#[test]
fn fixed_arithmetic_saturates() {
    assert_eq!(fx(i32::MAX).add(fx(1)), fx(i32::MAX));
    assert_eq!(fx(i32::MIN).sub(fx(1)), fx(i32::MIN));
    assert_eq!(fx(i32::MIN).neg(), fx(i32::MAX));
    assert_eq!(fx(i32::MIN).abs(), fx(i32::MAX));
    assert_eq!(fx(i32::MAX).mul(fx(i32::MAX)), fx(i32::MAX));
    assert_eq!(fx(i32::MAX).mul(fx(i32::MIN)), fx(i32::MIN));
    assert_eq!(Fixed::from_int(i32::MAX), fx(i32::MAX));
    assert_eq!(Fixed::from_int(i32::MIN), fx(i32::MIN));
    assert_eq!(saturate(1 << 40), i32::MAX);
    assert_eq!(saturate(-(1 << 40)), i32::MIN);
    assert_eq!(saturate(-5), -5);
}

#[test]
fn division_rounds_toward_zero() {
    assert_eq!(div_toward_zero(7, 2), 3);
    assert_eq!(div_toward_zero(-7, 2), -3);
    assert_eq!(div_toward_zero(0, 5), 0);
}

#[test]
fn integer_square_root_rounds_down() {
    assert_eq!(isqrt(0), 0);
    assert_eq!(isqrt(1), 1);
    assert_eq!(isqrt(24), 4);
    assert_eq!(isqrt(25), 5);
    assert_eq!(isqrt(26), 5);
    assert_eq!(isqrt(u128::MAX), u64::MAX);
}

#[test]
fn vector_lengths_and_distances() {
    assert_eq!(v(3, 4).length(), Fixed::from_int(5));
    assert_eq!(v(3, 4).length_squared(), Fixed::from_int(25));
    assert_eq!(v(1, 1).length(), fx(1_414));
    assert_eq!(v(0, 0).length(), fx(0));
    assert_eq!(v(1, 2).distance_to(v(4, 6)), Fixed::from_int(5));
    assert_eq!(v(1, 2).distance_squared(v(4, 6)), 25_000_000);
    let far = Vector2D::new(fx(i32::MAX), fx(i32::MAX));
    let near = Vector2D::new(fx(i32::MIN), fx(i32::MIN));
    assert_eq!(far.distance_to(near), fx(i32::MAX));
}

#[test]
fn within_and_closer_than_are_exact() {
    let a = v(0, 0);
    assert!(a.within(v(3, 4), Fixed::from_int(5)));
    assert!(!a.within(v(3, 4), fx(4_999)));
    assert!(!a.closer_than(v(3, 4), Fixed::from_int(5)));
    assert!(a.closer_than(v(3, 4), fx(5_001)));
    assert!(a.within(a, fx(0)));
    assert!(!a.closer_than(a, fx(0)));
    assert!(!a.within(a, fx(-1)));
}

#[test]
fn normalized_has_unit_length() {
    assert_eq!(v(3, 4).normalized(), Vector2D::new(fx(600), fx(800)));
    assert_eq!(v(-10, 0).normalized(), Vector2D::new(fx(-1_000), fx(0)));
    assert_eq!(v(0, 0).normalized(), Vector2D::zero());
    assert_eq!(Vector2D::new(fx(1), fx(0)).normalized(), Vector2D::zero());
}

#[test]
fn move_toward_does_not_overshoot() {
    let from = v(0, 0);
    let to = v(10, 0);
    assert_eq!(from.move_toward(to, Fixed::from_int(4)), v(4, 0));
    assert_eq!(from.move_toward(to, Fixed::from_int(10)), to);
    assert_eq!(from.move_toward(to, Fixed::from_int(11)), to);
    assert_eq!(v(0, 0).move_toward(v(3, 4), Fixed::from_int(1)), Vector2D::new(fx(600), fx(800)));
    assert_eq!(v(0, 0).move_toward(v(-3, -4), Fixed::from_int(1)), Vector2D::new(fx(-600), fx(-800)));
    // A point within a thousandth is reached whatever the step.
    let close = Vector2D::new(fx(1), fx(0));
    assert_eq!(from.move_toward(close, fx(0)), close);
    // A negative step moves away.
    assert_eq!(from.move_toward(to, Fixed::from_int(-4)), v(-4, 0));
}

#[test]
fn approximate_equality_allows_one_thousandth() {
    let a = Vector2D::new(fx(1_000), fx(2_000));
    assert!(a.approx_eq(&Vector2D::new(fx(1_001), fx(1_999))));
    assert!(!a.approx_eq(&Vector2D::new(fx(1_002), fx(2_000))));
    assert!(!a.approx_eq(&Vector2D::new(fx(1_000), fx(1_998))));
}

#[test]
fn vector_arithmetic() {
    assert_eq!(v(1, 2).add(v(3, 4)), v(4, 6));
    assert_eq!(v(1, 2).sub(v(3, 4)), v(-2, -2));
    assert_eq!(v(1, 2).mul(Fixed::from_int(64)), v(64, 128));
    let mut w = v(1, 2);
    w.mul_assign(fx(500));
    assert_eq!(w, Vector2D::new(fx(500), fx(1_000)));
    assert_eq!(Vector2D::zero(), v(0, 0));
}

#[test]
fn grid_vectors() {
    let a = Vector2Di::new(3, -4);
    assert_eq!(a.x, 3);
    assert_eq!(a.y, -4);
    assert_eq!(a.length_squared(), 25);
    assert_eq!(a.length(), Fixed::from_int(5));
    assert_eq!(Vector2Di::new(1, 1).length(), fx(1_414));
    assert_eq!(Vector2Di::new(1, 2).distance_to(Vector2Di::new(4, 6)), Fixed::from_int(5));
    assert_eq!(a.add(Vector2Di::new(1, 1)), Vector2Di::new(4, -3));
    assert_eq!(a.sub(Vector2Di::new(1, 1)), Vector2Di::new(2, -5));
    assert_eq!(a.mul(2), Vector2Di::new(6, -8));
    let mut b = a;
    b.mul_assign(-1);
    assert_eq!(b, Vector2Di::new(-3, 4));
    assert_eq!(Vector2Di::zero(), Vector2Di::new(0, 0));
    assert_eq!(Vector2Di::new(46340, 0).length_squared(), 2147395600);
}

#[test]
fn directions_have_unit_vectors_and_names() {
    assert_eq!(Direction::NORTH.to_vector(), v(0, -1));
    assert_eq!(Direction::SOUTH.to_vector(), v(0, 1));
    assert_eq!(Direction::EAST.to_vector(), v(1, 0));
    assert_eq!(Direction::WEST.to_vector(), v(-1, 0));
    assert_eq!(Direction::NORTH.name(), "north");
    assert_eq!(Direction::SOUTH.name(), "south");
    assert_eq!(Direction::EAST.name(), "east");
    assert_eq!(Direction::WEST.name(), "west");
}

#[test]
fn dominant_direction_prefers_x_on_a_tie() {
    let o = v(0, 0);
    assert_eq!(Direction::toward(o, v(5, 1)), Direction::EAST);
    assert_eq!(Direction::toward(o, v(-5, 1)), Direction::WEST);
    assert_eq!(Direction::toward(o, v(1, 5)), Direction::SOUTH);
    assert_eq!(Direction::toward(o, v(1, -5)), Direction::NORTH);
    assert_eq!(Direction::toward(o, v(3, 3)), Direction::EAST);
    assert_eq!(Direction::toward(o, v(-3, 3)), Direction::WEST);
    assert_eq!(Direction::toward(o, o), Direction::WEST);
}
