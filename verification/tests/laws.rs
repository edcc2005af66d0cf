use moolah_core::calculate::{
    annuity_compound_factor, annuity_discount_factor, annuity_future_value,
    annuity_growth_compound_factor, annuity_growth_discount_factor, annuity_present_value,
    cash_flow_future_value, cash_flow_present_value, effective_interest_rate,
    growing_perpetuity_present_value, perpetuity_present_value,
};
use moolah_core::{Decimal, MAX_MANTISSA};

fn number(mantissa: i128, scale: u32) -> Decimal {
    Decimal::new(mantissa, scale).unwrap()
}

fn value(d: Decimal) -> rust_decimal::Decimal {
    rust_decimal::Decimal::from_i128_with_scale(d.mantissa(), d.scale())
}

// Compounding and discounting undo each other.

#[test]
fn compounding_then_discounting_gives_the_amount_back() {
    let amount = number(5000, 0);
    let rate = number(8, 0);
    let compounded = cash_flow_present_value(amount, rate, 5).unwrap();
    let back = cash_flow_future_value(compounded, rate, 5).unwrap();
    assert_eq!(value(back).round_dp(2), rust_decimal::Decimal::new(5000, 0));
}

#[test]
fn discounting_then_compounding_gives_the_amount_back() {
    let amount = number(100000, 0);
    let rate = number(5, 0);
    let discounted = cash_flow_future_value(amount, rate, 10).unwrap();
    let back = cash_flow_present_value(discounted, rate, 10).unwrap();
    assert_eq!(value(back).round_dp(2), rust_decimal::Decimal::new(100000, 0));
}

// Zero periods.

#[test]
fn zero_periods_leave_a_cash_flow_unchanged() {
    let compounded = cash_flow_present_value(number(5000, 0), number(8, 0), 0).unwrap();
    assert_eq!(value(compounded), rust_decimal::Decimal::new(5000, 0));
    let discounted = cash_flow_future_value(number(5000, 0), number(8, 0), 0).unwrap();
    assert_eq!(value(discounted), rust_decimal::Decimal::new(5000, 0));
}

#[test]
fn zero_periods_give_the_factor_one_at_the_rate_minus_one() {
    // The base 1 + (-1) is zero, and zero to the power zero is one:
    // (1 - 1) / -1 and (1 - 1 / 1) / -1.
    let compound = annuity_compound_factor(number(-1, 0), 0).unwrap();
    assert_eq!(value(compound), rust_decimal::Decimal::new(0, 0));
    let discount = annuity_discount_factor(number(-1, 0), 0).unwrap();
    assert_eq!(value(discount), rust_decimal::Decimal::new(0, 0));
}

#[test]
fn zero_periods_give_a_cash_flow_the_factor_one_at_minus_one_hundred_percent() {
    // (1 + -100 / 100)^0 is one, so the amount comes back.
    let compounded = cash_flow_present_value(number(750, 0), number(-100, 0), 0).unwrap();
    assert_eq!(value(compounded), rust_decimal::Decimal::new(750, 0));
    let discounted = cash_flow_future_value(number(750, 0), number(-100, 0), 0).unwrap();
    assert_eq!(value(discounted), rust_decimal::Decimal::new(750, 0));
}

#[test]
fn zero_periods_give_the_growth_factors_their_rate_spread() {
    // (1 - 1) - (0.08 - 0.03)
    let compound = annuity_growth_compound_factor(number(8, 0), number(3, 0), 0).unwrap();
    assert_eq!(value(compound), rust_decimal::Decimal::new(-5, 2));
    // (1 - 1 / 1) / (0.08 - 0.03)
    let discount = annuity_growth_discount_factor(number(8, 0), number(3, 0), 0).unwrap();
    assert_eq!(value(discount), rust_decimal::Decimal::new(0, 0));
}

#[test]
fn zero_periods_give_the_effective_rate_zero() {
    let rate = effective_interest_rate(number(12, 0), number(12, 0), 0).unwrap();
    assert_eq!(value(rate), rust_decimal::Decimal::new(0, 0));
}

// Rates without a value.

#[test]
fn annuity_compound_factor_fails_at_rate_zero() {
    assert_eq!(annuity_compound_factor(number(0, 0), 12), None);
    assert_eq!(annuity_compound_factor(number(0, 2), 12), None);
    assert_eq!(annuity_compound_factor(number(0, 0), 0), None);
}

#[test]
fn annuity_discount_factor_fails_at_rate_zero() {
    assert_eq!(annuity_discount_factor(number(0, 0), 13), None);
    assert_eq!(annuity_discount_factor(number(0, 4), 13), None);
    assert_eq!(annuity_discount_factor(number(0, 0), 0), None);
}

#[test]
fn annuity_values_fail_at_zero_percent() {
    assert_eq!(annuity_present_value(number(1000, 0), number(0, 0), 13), None);
    assert_eq!(annuity_future_value(number(1000, 0), number(0, 0), 13), None);
}

#[test]
fn growing_perpetuity_fails_where_the_rates_are_equal() {
    assert_eq!(
        growing_perpetuity_present_value(number(100, 0), number(5, 0), number(5, 0)),
        None
    );
    assert_eq!(
        growing_perpetuity_present_value(number(100, 0), number(-25, 1), number(-25, 1)),
        None
    );
}

#[test]
fn growing_perpetuity_fails_where_the_rates_differ_in_scale_only() {
    assert_eq!(
        growing_perpetuity_present_value(number(100, 0), number(5, 0), number(50, 1)),
        None
    );
}

#[test]
fn annuity_growth_discount_factor_fails_where_the_rates_are_equal() {
    assert_eq!(annuity_growth_discount_factor(number(7, 0), number(7, 0), 10), None);
    assert_eq!(annuity_growth_discount_factor(number(7, 0), number(7, 0), 0), None);
}

#[test]
fn effective_interest_rate_fails_for_zero_periods_per_annum() {
    assert_eq!(effective_interest_rate(number(12, 0), number(0, 0), 12), None);
}

// The first step that fails is the result.

#[test]
fn an_overflowing_power_fails_the_formula() {
    assert_eq!(cash_flow_present_value(number(5000, 0), number(8, 0), 1000), None);
    assert_eq!(cash_flow_future_value(number(5000, 0), number(8, 0), 1000), None);
    assert_eq!(annuity_compound_factor(number(8, 2), 1000), None);
    assert_eq!(annuity_discount_factor(number(8, 2), 1000), None);
    assert_eq!(annuity_growth_compound_factor(number(8, 0), number(3, 0), 1000), None);
    assert_eq!(annuity_growth_discount_factor(number(8, 0), number(3, 0), 1000), None);
    assert_eq!(effective_interest_rate(number(96, 0), number(12, 0), 1000), None);
    assert_eq!(annuity_present_value(number(1000, 0), number(8, 0), 1000), None);
    assert_eq!(annuity_future_value(number(1000, 0), number(8, 0), 1000), None);
}

#[test]
fn an_overflowing_power_in_a_late_step_fails_the_formula() {
    // The first power, 1.0^1000, is one; the second, 1.08^1000, overflows.
    assert_eq!(annuity_growth_compound_factor(number(0, 0), number(8, 0), 1000), None);
    assert_eq!(annuity_growth_discount_factor(number(0, 0), number(8, 0), 1000), None);
}

#[test]
fn an_overflowing_sum_fails_the_formula() {
    // 1 + rate does not fit in 96 bits.
    assert_eq!(annuity_compound_factor(number(MAX_MANTISSA, 0), 1), None);
    assert_eq!(annuity_discount_factor(number(MAX_MANTISSA, 0), 0), None);
}

#[test]
fn an_overflowing_product_fails_the_formula() {
    // The last step, payment * 2, does not fit in 96 bits.
    assert_eq!(perpetuity_present_value(number(MAX_MANTISSA, 0), number(200, 0)), None);
    assert_eq!(cash_flow_present_value(number(MAX_MANTISSA, 0), number(100, 0), 1), None);
}

#[test]
fn an_overflowing_quotient_fails_the_formula() {
    // The last step, payment / 0.01, does not fit in 96 bits.
    assert_eq!(
        growing_perpetuity_present_value(number(MAX_MANTISSA, 0), number(2, 0), number(1, 0)),
        None
    );
}
