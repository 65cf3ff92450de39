use mesh_world::fixed::{add_fixed, div_fixed, mul_fixed, narrow, UNIT};

#[test]
fn unit_is_one_million() {
    assert_eq!(UNIT, 1_000_000);
}

#[test]
fn narrow_keeps_what_fits() {
    assert_eq!(narrow(0), 0);
    assert_eq!(narrow(-17), -17);
    assert_eq!(narrow(i64::MAX as i128), i64::MAX);
    assert_eq!(narrow(i64::MIN as i128), i64::MIN);
}

#[test]
fn narrow_pins_what_does_not_fit() {
    assert_eq!(narrow(i64::MAX as i128 + 1), i64::MAX);
    assert_eq!(narrow(i64::MIN as i128 - 1), i64::MIN);
    assert_eq!(narrow(i128::MAX), i64::MAX);
    assert_eq!(narrow(i128::MIN), i64::MIN);
}

#[test]
fn sums_are_exact_until_they_saturate() {
    assert_eq!(add_fixed(1_500_000, 250_000), 1_750_000);
    assert_eq!(add_fixed(-1_500_000, 250_000), -1_250_000);
    assert_eq!(add_fixed(i64::MAX, 1), i64::MAX);
    assert_eq!(add_fixed(i64::MIN, -1), i64::MIN);
    assert_eq!(add_fixed(i64::MAX, i64::MIN), -1);
}

#[test]
fn products_are_scaled_back_by_the_unit() {
    // 1.5 * 2.5 = 3.75
    assert_eq!(mul_fixed(1_500_000, 2_500_000), 3_750_000);
    // 0.5 * 0.5 = 0.25
    assert_eq!(mul_fixed(500_000, 500_000), 250_000);
    assert_eq!(mul_fixed(UNIT, 123_456), 123_456);
    assert_eq!(mul_fixed(0, i64::MAX), 0);
}

#[test]
fn products_round_toward_zero() {
    // 0.000003 * 0.5 = 0.0000015
    assert_eq!(mul_fixed(3, 500_000), 1);
    assert_eq!(mul_fixed(-3, 500_000), -1);
    assert_eq!(mul_fixed(3, -500_000), -1);
    assert_eq!(mul_fixed(-3, -500_000), 1);
    assert_eq!(mul_fixed(1, 999_999), 0);
    assert_eq!(mul_fixed(-1, 999_999), 0);
}

#[test]
fn products_saturate() {
    assert_eq!(mul_fixed(i64::MAX, 2_000_000), i64::MAX);
    assert_eq!(mul_fixed(i64::MAX, -2_000_000), i64::MIN);
    assert_eq!(mul_fixed(i64::MIN, i64::MIN), i64::MAX);
    assert_eq!(mul_fixed(i64::MIN, i64::MAX), i64::MIN);
}

#[test]
fn quotients_are_scaled_up_by_the_unit() {
    // 3 / 2 = 1.5
    assert_eq!(div_fixed(3_000_000, 2_000_000), 1_500_000);
    // -2 / 27 = -0.074074...
    assert_eq!(div_fixed(-2_000_000, 27_000_000), -74_074);
    assert_eq!(div_fixed(2_000_000, 27_000_000), 74_074);
    assert_eq!(div_fixed(1_000_000, 3_000_000), 333_333);
    assert_eq!(div_fixed(0, 1), 0);
}

#[test]
fn quotients_saturate() {
    // 2 / 0.000001 is two million, far inside the range; a huge dividend is not
    assert_eq!(div_fixed(2_000_000, 1), 2_000_000_000_000);
    assert_eq!(div_fixed(i64::MAX, 1), i64::MAX);
    assert_eq!(div_fixed(i64::MIN, 1), i64::MIN);
    assert_eq!(div_fixed(i64::MAX, i64::MAX), UNIT);
}
