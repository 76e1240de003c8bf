use pendulum::trig::{cos_fx, sin_fx, HALF_PI_FX, PI_FX, TWO_PI_FX};

const SCALE_F: f64 = 1.0e6;

fn close(fx: i64, real: f64, tol: f64) -> bool {
    ((fx as f64) / SCALE_F - real).abs() <= tol
}

#[test]
fn sin_of_zero_is_exactly_zero() {
    assert_eq!(sin_fx(0), 0);
}

#[test]
fn sin_matches_reference_over_a_turn() {
    // Micro-radian angles across several turns, against the library's
    // stated accuracy budget.
    let mut a: i64 = -10_000_000;
    while a <= 10_000_000 {
        let real = f64::sin(a as f64 / SCALE_F);
        assert!(close(sin_fx(a), real, 1.0e-5), "sin mismatch at {}", a);
        a += 37_000;
    }
}

#[test]
fn cos_matches_reference_over_a_turn() {
    let mut a: i64 = -10_000_000;
    while a <= 10_000_000 {
        let real = f64::cos(a as f64 / SCALE_F);
        assert!(close(cos_fx(a), real, 1.0e-5), "cos mismatch at {}", a);
        a += 37_000;
    }
}

#[test]
fn sin_handles_accumulated_rotation() {
    // A thousand radians of accumulated angle: the truncated value of two
    // pi shifts the reduced angle slightly, so the tolerance is wider.
    let a: i64 = 1_000_000_000;
    assert!(close(sin_fx(a), f64::sin(1000.0), 2.0e-4));
    assert!(close(sin_fx(-a), f64::sin(-1000.0), 2.0e-4));
}

#[test]
fn sin_is_odd_within_a_quarter_turn() {
    let mut a: i64 = 1;
    while a < HALF_PI_FX {
        assert_eq!(sin_fx(-a), -sin_fx(a), "odd symmetry broken at {}", a);
        a += 97_003;
    }
}

#[test]
fn quadrant_landmarks() {
    // sin(pi/2) and cos(0) land within a few millionths of one.
    assert!((sin_fx(HALF_PI_FX) - 1_000_000).abs() <= 5);
    assert!((cos_fx(0) - 1_000_000).abs() <= 5);
    // sin(pi) and cos(pi/2) within a few millionths of zero.
    assert!(sin_fx(PI_FX).abs() <= 5);
    assert!(cos_fx(HALF_PI_FX).abs() <= 5);
    // A full turn behaves like zero.
    assert!(sin_fx(TWO_PI_FX).abs() <= 5);
}
