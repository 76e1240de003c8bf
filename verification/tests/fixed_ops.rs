use pendulum::fixed::{fx_abs, fx_add, fx_div, fx_mul, fx_neg, fx_round_unit, fx_sub};
use pendulum::fixed::{FX_MAX, SCALE};

#[test]
fn add_and_sub_exact() {
    assert_eq!(fx_add(1_500_000, 2_500_000), Some(4_000_000));
    assert_eq!(fx_sub(1_500_000, 2_500_000), Some(-1_000_000));
    assert_eq!(fx_add(-7, 7), Some(0));
}

#[test]
fn add_overflow_is_none() {
    assert_eq!(fx_add(FX_MAX, 1), None);
    assert_eq!(fx_sub(-FX_MAX, 1), None);
    assert_eq!(fx_add(FX_MAX, -1), Some(FX_MAX - 1));
}

#[test]
fn mul_truncates_toward_zero() {
    // 1.5 * 2.0 == 3.0
    assert_eq!(fx_mul(1_500_000, 2_000_000), Some(3_000_000));
    assert_eq!(fx_mul(-1_500_000, 2_000_000), Some(-3_000_000));
    // 0.333333 * 0.000003 == 0.000000999999, truncated to zero either way
    assert_eq!(fx_mul(333_333, 3), Some(0));
    assert_eq!(fx_mul(-333_333, 3), Some(0));
}

#[test]
fn mul_overflow_is_none() {
    assert_eq!(fx_mul(FX_MAX, FX_MAX), None);
    assert_eq!(fx_mul(FX_MAX, SCALE), Some(FX_MAX));
}

#[test]
fn div_exact_and_truncating() {
    // 1 / 3 == 0.333333...
    assert_eq!(fx_div(1_000_000, 3_000_000), Some(333_333));
    assert_eq!(fx_div(-1_000_000, 3_000_000), Some(-333_333));
    assert_eq!(fx_div(1_000_000, -3_000_000), Some(-333_333));
    // 0.5 / 200 == 0.0025
    assert_eq!(fx_div(500_000, 200_000_000), Some(2_500));
}

#[test]
fn div_by_zero_is_none() {
    assert_eq!(fx_div(1_000_000, 0), None);
    assert_eq!(fx_div(0, 0), None);
}

#[test]
fn div_overflow_is_none() {
    // FX_MAX / 0.000001 leaves the representable range.
    assert_eq!(fx_div(FX_MAX, 1), None);
}

#[test]
fn neg_and_abs() {
    assert_eq!(fx_neg(5), -5);
    assert_eq!(fx_neg(-FX_MAX), FX_MAX);
    assert_eq!(fx_abs(-123), 123);
    assert_eq!(fx_abs(123), 123);
}

#[test]
fn round_ties_away_from_zero() {
    assert_eq!(fx_round_unit(1_500_000), 2_000_000);
    assert_eq!(fx_round_unit(-1_500_000), -2_000_000);
    assert_eq!(fx_round_unit(1_499_999), 1_000_000);
    assert_eq!(fx_round_unit(500_000), 1_000_000);
    assert_eq!(fx_round_unit(499_999), 0);
    assert_eq!(fx_round_unit(-499_999), 0);
    assert_eq!(fx_round_unit(0), 0);
}
