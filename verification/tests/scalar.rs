//! The fixed-point scalar kernel.

use lucifer::fx;

#[test]
fn multiplication_and_division() {
    assert_eq!(fx::mul(fx::ONE, fx::ONE), fx::ONE);
    assert_eq!(fx::mul(fx::HALF, fx::HALF), fx::ONE / 4);
    assert_eq!(fx::mul(-fx::HALF, fx::HALF), -fx::ONE / 4);
    assert_eq!(fx::div(fx::ONE, fx::TWO), fx::HALF);
    assert_eq!(fx::div(-fx::ONE, fx::TWO), -fx::HALF);
    assert_eq!(fx::div(3 * fx::ONE, -fx::TWO), -(fx::ONE + fx::HALF));
}

#[test]
fn saturation_stands_in_for_infinity() {
    assert_eq!(fx::div(fx::ONE, 0), fx::MAX);
    assert_eq!(fx::div(-fx::ONE, 0), fx::MIN);
    assert_eq!(fx::div(0, 0), 0);
    assert_eq!(fx::mul(fx::MAX, fx::TWO), fx::MAX);
    assert_eq!(fx::add(fx::MAX, fx::MAX), fx::MAX);
    assert_eq!(fx::neg(fx::MIN), fx::MAX);
}

#[test]
fn square_roots_are_exact_on_squares() {
    assert_eq!(fx::sqrt(fx::ONE), fx::ONE);
    assert_eq!(fx::sqrt(4 * fx::ONE), 2 * fx::ONE);
    assert_eq!(fx::sqrt(9 * fx::ONE), 3 * fx::ONE);
    assert_eq!(fx::sqrt(fx::ONE / 4), fx::HALF);
    assert_eq!(fx::sqrt(0), 0);
    assert_eq!(fx::sqrt(-fx::ONE), 0);
}

#[test]
fn square_root_truncates_between_squares() {
    // sqrt(2) in 1/65536 units, truncated.
    let r = fx::sqrt(2 * fx::ONE);
    assert!(r * r <= 2 * fx::ONE * 65536);
    assert!((r + 1) * (r + 1) > 2 * fx::ONE * 65536);
    assert_eq!(r, 92681);
}

#[test]
fn integer_powers() {
    assert_eq!(fx::powi(fx::HALF, 0), fx::ONE);
    assert_eq!(fx::powi(fx::HALF, 1), fx::HALF);
    assert_eq!(fx::powi(fx::HALF, 3), fx::ONE / 8);
    assert_eq!(fx::powi(fx::ONE, 100), fx::ONE);
    assert_eq!(fx::powi(0, 5), 0);
}

#[test]
fn roots_invert_powers() {
    // The square root of a quarter is a half; the cube root of an eighth
    // lands within one truncation unit of a half, and is exactly the
    // largest scalar whose cube stays within the argument.
    assert_eq!(fx::root_n(fx::ONE / 4, 2), fx::HALF);
    let r = fx::root_n(fx::ONE / 8, 3);
    assert!((r - fx::HALF).abs() <= 1);
    assert!(fx::powi(r, 3) <= fx::ONE / 8);
    assert!(fx::powi(r + 1, 3) > fx::ONE / 8);
    assert_eq!(fx::root_n(fx::ONE, 7), fx::ONE);
    // The largest scalar whose truncated square is zero is just short of
    // the truncation granularity.
    let z = fx::root_n(0, 2);
    assert_eq!(z, 255);
    assert_eq!(fx::powi(z, 2), 0);
    assert!(fx::powi(z + 1, 2) > 0);
}

#[test]
fn arctangent_landmarks() {
    assert_eq!(fx::atan(0), 0);
    // atan(1) is pi/4 exactly under the quadratic approximation.
    assert_eq!(fx::atan(fx::ONE), fx::QUARTER_PI);
    assert_eq!(fx::atan(-fx::ONE), -fx::QUARTER_PI);
    // Far arguments approach pi/2 from below.
    let far = fx::atan(1000 * fx::ONE);
    assert!(far < fx::HALF_PI && far > fx::HALF_PI - 200);
}

#[test]
fn clamp_and_abs() {
    assert_eq!(fx::clamp(3 * fx::ONE, 0, fx::ONE), fx::ONE);
    assert_eq!(fx::clamp(-fx::ONE, 0, fx::ONE), 0);
    assert_eq!(fx::clamp(fx::HALF, 0, fx::ONE), fx::HALF);
    assert_eq!(fx::abs(-fx::HALF), fx::HALF);
    assert_eq!(fx::abs(fx::HALF), fx::HALF);
}
