//! The formulas as chains over mathematical values.
//!
//! Each function here gives the result of the formula of the same name in
//! [`crate::calculate`]: the value of its last step, or `None` if a step
//! fails. A formula is written as its steps in the order in which they are
//! taken, each step's value bound to a name for the steps after it. Rates
//! are in percent units (`8` is 8%) unless a formula says that it takes a
//! fraction.

use vstd::prelude::*;
use crate::arithmetic::{difference, hundred, one, power, product, quotient, sum};
use crate::chain::chain;
use crate::decimal::DecimalView;

verus! {

/// `rate / 100`: a rate given in percent units, as a fraction.
pub open spec fn fraction(rate: DecimalView) -> Option<DecimalView> {
    quotient(rate, hundred())
}

/// `(1 + rate)^periods`, for a fractional rate.
pub open spec fn growth_factor(rate: DecimalView, periods: u64) -> Option<DecimalView> {
    chain(sum(one(), rate), |base: DecimalView|
        power(base, periods))
}

/// `future_value * (1 + interest_rate / 100)^periods`.
pub open spec fn cash_flow_present_value(
    future_value: DecimalView,
    interest_rate: DecimalView,
    periods: u64,
) -> Option<DecimalView> {
    chain(fraction(interest_rate), |rate: DecimalView|
    chain(growth_factor(rate, periods), |factor: DecimalView|
        product(future_value, factor)))
}

/// `present_value / (1 + discount_rate / 100)^periods`.
pub open spec fn cash_flow_future_value(
    present_value: DecimalView,
    discount_rate: DecimalView,
    periods: u64,
) -> Option<DecimalView> {
    chain(fraction(discount_rate), |rate: DecimalView|
    chain(growth_factor(rate, periods), |factor: DecimalView|
        quotient(present_value, factor)))
}

/// `((1 + interest_rate)^periods - 1) / interest_rate`, for a fractional
/// rate.
pub open spec fn annuity_compound_factor(
    interest_rate: DecimalView,
    periods: u64,
) -> Option<DecimalView> {
    chain(growth_factor(interest_rate, periods), |factor: DecimalView|
    chain(difference(factor, one()), |gain: DecimalView|
        quotient(gain, interest_rate)))
}

/// With `i = interest_rate / 100` and `g = growth_rate / 100`:
/// `((i + 1)^periods - (g + 1)^periods) - (i - g)`.
///
/// The last step subtracts the difference of the rates; it does not divide
/// by it.
pub open spec fn annuity_growth_compound_factor(
    interest_rate: DecimalView,
    growth_rate: DecimalView,
    periods: u64,
) -> Option<DecimalView> {
    chain(fraction(interest_rate), |i: DecimalView|
    chain(sum(i, one()), |i_base: DecimalView|
    chain(power(i_base, periods), |i_factor: DecimalView|
    chain(fraction(growth_rate), |g: DecimalView|
    chain(sum(g, one()), |g_base: DecimalView|
    chain(power(g_base, periods), |g_factor: DecimalView|
    chain(difference(i_factor, g_factor), |numerator: DecimalView|
    chain(difference(i, g), |denominator: DecimalView|
        difference(numerator, denominator)))))))))
}

/// `(1 - 1 / (1 + discount_rate)^periods) / discount_rate`, for a fractional
/// rate.
pub open spec fn annuity_discount_factor(
    discount_rate: DecimalView,
    periods: u64,
) -> Option<DecimalView> {
    chain(growth_factor(discount_rate, periods), |factor: DecimalView|
    chain(quotient(one(), factor), |discount: DecimalView|
    chain(difference(one(), discount), |loss: DecimalView|
        quotient(loss, discount_rate))))
}

/// With `d = discount_rate / 100` and `g = growth_rate / 100`:
/// `(1 - (g + 1)^periods / (d + 1)^periods) / (d - g)`.
pub open spec fn annuity_growth_discount_factor(
    discount_rate: DecimalView,
    growth_rate: DecimalView,
    periods: u64,
) -> Option<DecimalView> {
    chain(fraction(discount_rate), |d: DecimalView|
    chain(sum(d, one()), |d_base: DecimalView|
    chain(power(d_base, periods), |d_factor: DecimalView|
    chain(fraction(growth_rate), |g: DecimalView|
    chain(sum(g, one()), |g_base: DecimalView|
    chain(power(g_base, periods), |g_factor: DecimalView|
    chain(quotient(g_factor, d_factor), |ratio: DecimalView|
    chain(difference(one(), ratio), |numerator: DecimalView|
    chain(difference(d, g), |denominator: DecimalView|
        quotient(numerator, denominator))))))))))
}

/// `(1 + (annual_rate / 100) / periods_per_annum)^periods - 1`.
pub open spec fn effective_interest_rate(
    annual_rate: DecimalView,
    periods_per_annum: DecimalView,
    periods: u64,
) -> Option<DecimalView> {
    chain(fraction(annual_rate), |rate: DecimalView|
    chain(quotient(rate, periods_per_annum), |periodic: DecimalView|
    chain(growth_factor(periodic, periods), |factor: DecimalView|
        difference(factor, one()))))
}

/// `payment * annuity_discount_factor(discount_rate / 100, periods)`.
pub open spec fn annuity_present_value(
    payment: DecimalView,
    discount_rate: DecimalView,
    periods: u64,
) -> Option<DecimalView> {
    chain(fraction(discount_rate), |rate: DecimalView|
    chain(annuity_discount_factor(rate, periods), |factor: DecimalView|
        product(payment, factor)))
}

/// `payment * annuity_compound_factor(interest_rate / 100, periods)`.
pub open spec fn annuity_future_value(
    payment: DecimalView,
    interest_rate: DecimalView,
    periods: u64,
) -> Option<DecimalView> {
    chain(fraction(interest_rate), |rate: DecimalView|
    chain(annuity_compound_factor(rate, periods), |factor: DecimalView|
        product(payment, factor)))
}

/// `payment * (discount_rate / 100)`.
///
/// The payment is multiplied by the rate; it is not divided by it.
pub open spec fn perpetuity_present_value(
    payment: DecimalView,
    discount_rate: DecimalView,
) -> Option<DecimalView> {
    chain(fraction(discount_rate), |rate: DecimalView|
        product(payment, rate))
}

/// `payment / (discount_rate / 100 - growth_rate / 100)`.
pub open spec fn growing_perpetuity_present_value(
    payment: DecimalView,
    discount_rate: DecimalView,
    growth_rate: DecimalView,
) -> Option<DecimalView> {
    chain(fraction(discount_rate), |d: DecimalView|
    chain(fraction(growth_rate), |g: DecimalView|
    chain(difference(d, g), |spread: DecimalView|
        quotient(payment, spread))))
}

} // verus!
