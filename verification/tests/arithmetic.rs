use moolah_core::{Decimal, MAX_MANTISSA, MAX_SCALE};

fn build(mantissa: i128, scale: u32) -> Decimal {
    Decimal::new(mantissa, scale).unwrap()
}

#[test]
fn new_keeps_mantissa_and_scale() {
    let d = Decimal::new(-12345, 3).unwrap();
    assert_eq!(d.mantissa(), -12345);
    assert_eq!(d.scale(), 3);
    assert!(!d.is_zero());
}

#[test]
fn new_accepts_the_limits() {
    assert!(Decimal::new(MAX_MANTISSA, MAX_SCALE).is_some());
    assert!(Decimal::new(-MAX_MANTISSA, 0).is_some());
    assert_eq!(MAX_MANTISSA, (1i128 << 96) - 1);
    assert_eq!(MAX_SCALE, 28);
}

#[test]
fn new_rejects_what_is_out_of_range() {
    assert_eq!(Decimal::new(MAX_MANTISSA + 1, 0), None);
    assert_eq!(Decimal::new(-MAX_MANTISSA - 1, 0), None);
    assert_eq!(Decimal::new(1, MAX_SCALE + 1), None);
    assert_eq!(Decimal::new(i128::MIN, 0), None);
    assert_eq!(Decimal::new(0, u32::MAX), None);
}

#[test]
fn from_integer_has_scale_zero() {
    let d = Decimal::from_integer(-42);
    assert_eq!(d.mantissa(), -42);
    assert_eq!(d.scale(), 0);
    assert_eq!(Decimal::from_integer(i64::MIN).mantissa(), i64::MIN as i128);
}

#[test]
fn zero_is_zero_at_every_scale() {
    assert!(build(0, 0).is_zero());
    assert!(build(0, 28).is_zero());
    assert!(!build(1, 28).is_zero());
}

#[test]
fn equality_is_by_mantissa_and_scale() {
    assert_eq!(build(40, 1), build(40, 1));
    assert_ne!(build(40, 1), build(4, 0));
}

#[test]
fn checked_add_adds() {
    // 1.5 + 2.25
    assert_eq!(build(15, 1).checked_add(build(225, 2)), Some(build(375, 2)));
}

#[test]
fn checked_add_fails_on_overflow() {
    assert_eq!(build(MAX_MANTISSA, 0).checked_add(build(1, 0)), None);
}

#[test]
fn checked_sub_subtracts() {
    // 1.5 - 2.25
    assert_eq!(build(15, 1).checked_sub(build(225, 2)), Some(build(-75, 2)));
}

#[test]
fn checked_sub_of_a_decimal_from_itself_is_zero_at_its_scale() {
    assert_eq!(build(12345, 3).checked_sub(build(12345, 3)), Some(build(0, 3)));
    assert_eq!(build(-7, 0).checked_sub(build(-7, 0)), Some(build(0, 0)));
    assert_eq!(build(0, 5).checked_sub(build(0, 5)), Some(build(0, 5)));
    assert_eq!(
        build(MAX_MANTISSA, 28).checked_sub(build(MAX_MANTISSA, 28)),
        Some(build(0, 28))
    );
    assert_eq!(
        build(-(1i128 << 70), 2).checked_sub(build(-(1i128 << 70), 2)),
        Some(build(0, 2))
    );
    assert_eq!(
        build(1i128 << 40, 9).checked_sub(build(1i128 << 40, 9)),
        Some(build(0, 9))
    );
}

#[test]
fn checked_sub_fails_on_overflow() {
    assert_eq!(build(-MAX_MANTISSA, 0).checked_sub(build(1, 0)), None);
}

#[test]
fn checked_mul_multiplies() {
    // 1.5 * -0.25
    assert_eq!(build(15, 1).checked_mul(build(-25, 2)), Some(build(-375, 3)));
}

#[test]
fn checked_mul_fails_on_overflow() {
    assert_eq!(build(MAX_MANTISSA, 0).checked_mul(build(2, 0)), None);
}

#[test]
fn checked_div_divides() {
    // 8 / 100
    let q = build(8, 0).checked_div(build(100, 0)).unwrap();
    assert_eq!(q, build(8, 2));
}

#[test]
fn checked_div_fails_for_a_zero_divisor() {
    assert_eq!(build(8, 0).checked_div(build(0, 0)), None);
    assert_eq!(build(8, 0).checked_div(build(0, 7)), None);
    assert_eq!(build(0, 0).checked_div(build(0, 0)), None);
}

#[test]
fn checked_div_fails_on_overflow() {
    assert_eq!(build(MAX_MANTISSA, 0).checked_div(build(1, 1)), None);
}

#[test]
fn checked_powu_raises() {
    // 1.5^3
    assert_eq!(build(15, 1).checked_powu(3), Some(build(3375, 3)));
}

#[test]
fn checked_powu_with_exponent_zero_is_one() {
    assert_eq!(build(25, 1).checked_powu(0), Some(build(1, 0)));
    assert_eq!(build(0, 0).checked_powu(0), Some(build(1, 0)));
    assert_eq!(build(0, 12).checked_powu(0), Some(build(1, 0)));
    assert_eq!(build(-MAX_MANTISSA, 0).checked_powu(0), Some(build(1, 0)));
}

#[test]
fn checked_powu_fails_on_overflow() {
    assert_eq!(build(10, 0).checked_powu(29), None);
    assert_eq!(build(2, 0).checked_powu(u64::MAX), None);
}
