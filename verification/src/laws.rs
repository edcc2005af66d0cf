//! What holds of the formulas for all inputs.
//!
//! The laws are stated over the functions of [`crate::model`], which the
//! formulas of [`crate::calculate`] are proved to compute.

use vstd::prelude::*;
use crate::arithmetic::{difference, one, power, product, quotient, sum};
use crate::chain::chain;
use crate::decimal::DecimalView;
use crate::model::{
    annuity_compound_factor,
    annuity_discount_factor,
    annuity_future_value,
    annuity_growth_compound_factor,
    annuity_growth_discount_factor,
    annuity_present_value,
    cash_flow_future_value,
    cash_flow_present_value,
    effective_interest_rate,
    fraction,
    growing_perpetuity_present_value,
    growth_factor,
    perpetuity_present_value,
};

verus! {

// Zero periods

/// Every base to the power zero is exactly one, the base zero included.
pub proof fn lemma_power_zero(base: DecimalView)
    ensures
        power(base, 0) == Some(one()),
        power(DecimalView::integer(0), 0) == Some(one()),
{
}

/// Over zero periods the growth factor `(1 + rate)^0` is exactly one for
/// every rate for which `1 + rate` can be formed, the rate `-1` included.
pub proof fn lemma_growth_factor_zero_periods(rate: DecimalView)
    ensures
        sum(one(), rate) is Some ==> growth_factor(rate, 0) == Some(one()),
        sum(one(), rate) is None ==> growth_factor(rate, 0) is None,
{
}

/// Over zero periods a cash flow is compounded by the factor one.
pub proof fn lemma_cash_flow_present_value_zero_periods(
    future_value: DecimalView,
    interest_rate: DecimalView,
)
    ensures
        cash_flow_present_value(future_value, interest_rate, 0) == (
            chain(fraction(interest_rate), |rate: DecimalView|
            chain(sum(one(), rate), |base: DecimalView|
                product(future_value, one())))
        ),
{
}

/// Over zero periods a cash flow is discounted by the factor one.
pub proof fn lemma_cash_flow_future_value_zero_periods(
    present_value: DecimalView,
    discount_rate: DecimalView,
)
    ensures
        cash_flow_future_value(present_value, discount_rate, 0) == (
            chain(fraction(discount_rate), |rate: DecimalView|
            chain(sum(one(), rate), |base: DecimalView|
                quotient(present_value, one())))
        ),
{
}

/// Over zero periods the compound factor of an annuity is `(1 - 1) / rate`.
pub proof fn lemma_annuity_compound_factor_zero_periods(interest_rate: DecimalView)
    ensures
        annuity_compound_factor(interest_rate, 0) == (
            chain(sum(one(), interest_rate), |base: DecimalView|
            chain(difference(one(), one()), |gain: DecimalView|
                quotient(gain, interest_rate)))
        ),
{
}

/// Over zero periods the discount factor of an annuity is
/// `(1 - 1 / 1) / rate`.
pub proof fn lemma_annuity_discount_factor_zero_periods(discount_rate: DecimalView)
    ensures
        annuity_discount_factor(discount_rate, 0) == (
            chain(sum(one(), discount_rate), |base: DecimalView|
            chain(quotient(one(), one()), |discount: DecimalView|
            chain(difference(one(), discount), |loss: DecimalView|
                quotient(loss, discount_rate))))
        ),
{
}

/// Over zero periods both powers in the growth compound factor are one.
pub proof fn lemma_annuity_growth_compound_factor_zero_periods(
    interest_rate: DecimalView,
    growth_rate: DecimalView,
)
    ensures
        annuity_growth_compound_factor(interest_rate, growth_rate, 0) == (
            chain(fraction(interest_rate), |i: DecimalView|
            chain(sum(i, one()), |i_base: DecimalView|
            chain(fraction(growth_rate), |g: DecimalView|
            chain(sum(g, one()), |g_base: DecimalView|
            chain(difference(one(), one()), |numerator: DecimalView|
            chain(difference(i, g), |denominator: DecimalView|
                difference(numerator, denominator)))))))
        ),
{
}

/// Over zero periods both powers in the growth discount factor are one.
pub proof fn lemma_annuity_growth_discount_factor_zero_periods(
    discount_rate: DecimalView,
    growth_rate: DecimalView,
)
    ensures
        annuity_growth_discount_factor(discount_rate, growth_rate, 0) == (
            chain(fraction(discount_rate), |d: DecimalView|
            chain(sum(d, one()), |d_base: DecimalView|
            chain(fraction(growth_rate), |g: DecimalView|
            chain(sum(g, one()), |g_base: DecimalView|
            chain(quotient(one(), one()), |ratio: DecimalView|
            chain(difference(one(), ratio), |numerator: DecimalView|
            chain(difference(d, g), |denominator: DecimalView|
                quotient(numerator, denominator))))))))
        ),
{
}

/// Over zero periods the effective rate is `1 - 1`, provided the periodic
/// rate and `1 +` that rate can be formed.
pub proof fn lemma_effective_interest_rate_zero_periods(
    annual_rate: DecimalView,
    periods_per_annum: DecimalView,
)
    ensures
        effective_interest_rate(annual_rate, periods_per_annum, 0) == (
            chain(fraction(annual_rate), |rate: DecimalView|
            chain(quotient(rate, periods_per_annum), |periodic: DecimalView|
            chain(sum(one(), periodic), |base: DecimalView|
                difference(one(), one()))))
        ),
{
}

/// Over zero periods the present value of an annuity is the payment times
/// `(1 - 1 / 1) / rate`.
pub proof fn lemma_annuity_present_value_zero_periods(
    payment: DecimalView,
    discount_rate: DecimalView,
)
    ensures
        annuity_present_value(payment, discount_rate, 0) == (
            chain(fraction(discount_rate), |rate: DecimalView|
            chain(sum(one(), rate), |base: DecimalView|
            chain(quotient(one(), one()), |discount: DecimalView|
            chain(difference(one(), discount), |loss: DecimalView|
            chain(quotient(loss, rate), |factor: DecimalView|
                product(payment, factor))))))
        ),
{
}

/// Over zero periods the future value of an annuity is the payment times
/// `(1 - 1) / rate`.
pub proof fn lemma_annuity_future_value_zero_periods(
    payment: DecimalView,
    interest_rate: DecimalView,
)
    ensures
        annuity_future_value(payment, interest_rate, 0) == (
            chain(fraction(interest_rate), |rate: DecimalView|
            chain(sum(one(), rate), |base: DecimalView|
            chain(difference(one(), one()), |gain: DecimalView|
            chain(quotient(gain, rate), |factor: DecimalView|
                product(payment, factor)))))
        ),
{
}

// Rates without a value

/// An annuity has neither a compound factor nor a discount factor at the
/// rate zero, at whatever scale the zero is written and for every number of
/// periods.
pub proof fn lemma_annuity_factors_fail_at_rate_zero(rate: DecimalView, periods: u64)
    requires
        rate.is_zero(),
    ensures
        annuity_compound_factor(rate, periods) is None,
        annuity_discount_factor(rate, periods) is None,
{
}

/// Where the discount rate and the growth rate are the same decimal, a
/// growing perpetuity has no present value and a growing annuity has no
/// discount factor.
pub proof fn lemma_equal_rates_fail(payment: DecimalView, rate: DecimalView, periods: u64)
    ensures
        growing_perpetuity_present_value(payment, rate, rate) is None,
        annuity_growth_discount_factor(rate, rate, periods) is None,
{
}

/// Where the two rates, taken as fractions, have a difference of zero, a
/// growing perpetuity has no present value and a growing annuity has no
/// discount factor.
pub proof fn lemma_zero_spread_fails(
    payment: DecimalView,
    discount_rate: DecimalView,
    growth_rate: DecimalView,
    periods: u64,
)
    requires
        fraction(discount_rate) matches Some(d) && fraction(growth_rate) matches Some(g)
            && difference(d, g) matches Some(spread) && spread.is_zero(),
    ensures
        growing_perpetuity_present_value(payment, discount_rate, growth_rate) is None,
        annuity_growth_discount_factor(discount_rate, growth_rate, periods) is None,
{
}

/// There is no effective rate for zero compounding periods a year.
pub proof fn lemma_effective_interest_rate_fails_without_periods_per_annum(
    annual_rate: DecimalView,
    periods_per_annum: DecimalView,
    periods: u64,
)
    requires
        periods_per_annum.is_zero(),
    ensures
        effective_interest_rate(annual_rate, periods_per_annum, periods) is None,
{
}

// A formula has a value exactly when every one of its steps has one

/// The growth factor has a value exactly when the sum and then the power
/// have one.
pub proof fn lemma_growth_factor_steps(rate: DecimalView, periods: u64)
    ensures
        growth_factor(rate, periods) is Some <==> {
            &&& sum(one(), rate) matches Some(base)
            &&& power(base, periods) is Some
        },
{
}

/// `cash_flow_present_value` has a value exactly when each of its steps, in
/// turn, has one.
pub proof fn lemma_cash_flow_present_value_steps(
    future_value: DecimalView,
    interest_rate: DecimalView,
    periods: u64,
)
    ensures
        cash_flow_present_value(future_value, interest_rate, periods) is Some <==> {
            &&& fraction(interest_rate) matches Some(rate)
            &&& sum(one(), rate) matches Some(base)
            &&& power(base, periods) matches Some(factor)
            &&& product(future_value, factor) is Some
        },
{
}

/// `cash_flow_future_value` has a value exactly when each of its steps, in
/// turn, has one.
pub proof fn lemma_cash_flow_future_value_steps(
    present_value: DecimalView,
    discount_rate: DecimalView,
    periods: u64,
)
    ensures
        cash_flow_future_value(present_value, discount_rate, periods) is Some <==> {
            &&& fraction(discount_rate) matches Some(rate)
            &&& sum(one(), rate) matches Some(base)
            &&& power(base, periods) matches Some(factor)
            &&& quotient(present_value, factor) is Some
        },
{
}

/// `annuity_compound_factor` has a value exactly when each of its steps, in
/// turn, has one.
pub proof fn lemma_annuity_compound_factor_steps(interest_rate: DecimalView, periods: u64)
    ensures
        annuity_compound_factor(interest_rate, periods) is Some <==> {
            &&& sum(one(), interest_rate) matches Some(base)
            &&& power(base, periods) matches Some(factor)
            &&& difference(factor, one()) matches Some(gain)
            &&& quotient(gain, interest_rate) is Some
        },
{
}

/// `annuity_growth_compound_factor` has a value exactly when each of its
/// steps, in turn, has one.
pub proof fn lemma_annuity_growth_compound_factor_steps(
    interest_rate: DecimalView,
    growth_rate: DecimalView,
    periods: u64,
)
    ensures
        annuity_growth_compound_factor(interest_rate, growth_rate, periods) is Some <==> {
            &&& fraction(interest_rate) matches Some(i)
            &&& sum(i, one()) matches Some(i_base)
            &&& power(i_base, periods) matches Some(i_factor)
            &&& fraction(growth_rate) matches Some(g)
            &&& sum(g, one()) matches Some(g_base)
            &&& power(g_base, periods) matches Some(g_factor)
            &&& difference(i_factor, g_factor) matches Some(numerator)
            &&& difference(i, g) matches Some(denominator)
            &&& difference(numerator, denominator) is Some
        },
{
}

/// `annuity_discount_factor` has a value exactly when each of its steps, in
/// turn, has one.
pub proof fn lemma_annuity_discount_factor_steps(discount_rate: DecimalView, periods: u64)
    ensures
        annuity_discount_factor(discount_rate, periods) is Some <==> {
            &&& sum(one(), discount_rate) matches Some(base)
            &&& power(base, periods) matches Some(factor)
            &&& quotient(one(), factor) matches Some(discount)
            &&& difference(one(), discount) matches Some(loss)
            &&& quotient(loss, discount_rate) is Some
        },
{
}

/// `annuity_growth_discount_factor` has a value exactly when each of its
/// steps, in turn, has one.
pub proof fn lemma_annuity_growth_discount_factor_steps(
    discount_rate: DecimalView,
    growth_rate: DecimalView,
    periods: u64,
)
    ensures
        annuity_growth_discount_factor(discount_rate, growth_rate, periods) is Some <==> {
            &&& fraction(discount_rate) matches Some(d)
            &&& sum(d, one()) matches Some(d_base)
            &&& power(d_base, periods) matches Some(d_factor)
            &&& fraction(growth_rate) matches Some(g)
            &&& sum(g, one()) matches Some(g_base)
            &&& power(g_base, periods) matches Some(g_factor)
            &&& quotient(g_factor, d_factor) matches Some(ratio)
            &&& difference(one(), ratio) matches Some(numerator)
            &&& difference(d, g) matches Some(denominator)
            &&& quotient(numerator, denominator) is Some
        },
{
}

/// `effective_interest_rate` has a value exactly when each of its steps, in
/// turn, has one.
pub proof fn lemma_effective_interest_rate_steps(
    annual_rate: DecimalView,
    periods_per_annum: DecimalView,
    periods: u64,
)
    ensures
        effective_interest_rate(annual_rate, periods_per_annum, periods) is Some <==> {
            &&& fraction(annual_rate) matches Some(rate)
            &&& quotient(rate, periods_per_annum) matches Some(periodic)
            &&& sum(one(), periodic) matches Some(base)
            &&& power(base, periods) matches Some(factor)
            &&& difference(factor, one()) is Some
        },
{
}

/// `annuity_present_value` has a value exactly when the rate's fraction, the
/// discount factor and the product, in turn, have one.
pub proof fn lemma_annuity_present_value_steps(
    payment: DecimalView,
    discount_rate: DecimalView,
    periods: u64,
)
    ensures
        annuity_present_value(payment, discount_rate, periods) is Some <==> {
            &&& fraction(discount_rate) matches Some(rate)
            &&& annuity_discount_factor(rate, periods) matches Some(factor)
            &&& product(payment, factor) is Some
        },
{
}

/// `annuity_future_value` has a value exactly when the rate's fraction, the
/// compound factor and the product, in turn, have one.
pub proof fn lemma_annuity_future_value_steps(
    payment: DecimalView,
    interest_rate: DecimalView,
    periods: u64,
)
    ensures
        annuity_future_value(payment, interest_rate, periods) is Some <==> {
            &&& fraction(interest_rate) matches Some(rate)
            &&& annuity_compound_factor(rate, periods) matches Some(factor)
            &&& product(payment, factor) is Some
        },
{
}

/// `perpetuity_present_value` has a value exactly when the rate's fraction
/// and then the product have one.
pub proof fn lemma_perpetuity_present_value_steps(payment: DecimalView, discount_rate: DecimalView)
    ensures
        perpetuity_present_value(payment, discount_rate) is Some <==> {
            &&& fraction(discount_rate) matches Some(rate)
            &&& product(payment, rate) is Some
        },
{
}

/// `growing_perpetuity_present_value` has a value exactly when each of its
/// steps, in turn, has one.
pub proof fn lemma_growing_perpetuity_present_value_steps(
    payment: DecimalView,
    discount_rate: DecimalView,
    growth_rate: DecimalView,
)
    ensures
        growing_perpetuity_present_value(payment, discount_rate, growth_rate) is Some <==> {
            &&& fraction(discount_rate) matches Some(d)
            &&& fraction(growth_rate) matches Some(g)
            &&& difference(d, g) matches Some(spread)
            &&& quotient(payment, spread) is Some
        },
{
}

// Compounding and discounting

/// A cash flow that is compounded and then discounted, at one rate and over
/// the same periods, is multiplied and then divided by one and the same
/// factor.
pub proof fn lemma_compound_then_discount(
    amount: DecimalView,
    rate: DecimalView,
    periods: u64,
)
    requires
        cash_flow_present_value(amount, rate, periods) is Some,
    ensures
        fraction(rate) matches Some(f) && growth_factor(f, periods) matches Some(factor)
            && product(amount, factor) matches Some(compounded) && cash_flow_future_value(
            compounded,
            rate,
            periods,
        ) == quotient(compounded, factor),
{
}

/// A cash flow that is discounted and then compounded, at one rate and over
/// the same periods, is divided and then multiplied by one and the same
/// factor.
pub proof fn lemma_discount_then_compound(
    amount: DecimalView,
    rate: DecimalView,
    periods: u64,
)
    requires
        cash_flow_future_value(amount, rate, periods) is Some,
    ensures
        fraction(rate) matches Some(f) && growth_factor(f, periods) matches Some(factor)
            && quotient(amount, factor) matches Some(discounted) && cash_flow_present_value(
            discounted,
            rate,
            periods,
        ) == product(discounted, factor),
{
}

} // verus!
