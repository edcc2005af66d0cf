//! The formulas.
//!
//! Every formula returns `Some` with its value, or `None` if one of its steps
//! fails: a division by zero or an overflow. Rates are in percent units (`8`
//! is 8%) unless a formula says that it takes a fraction. What each formula
//! returns is given by the function of the same name in [`crate::model`].

use vstd::prelude::*;
use crate::arithmetic::PERCENT;
use crate::decimal::Decimal;
use crate::model;

verus! {

/// The whole number one.
fn one() -> (r: Decimal)
    ensures
        r@ == crate::arithmetic::one(),
{
    Decimal::from_integer(1)
}

/// The whole number one hundred.
fn hundred() -> (r: Decimal)
    ensures
        r@ == crate::arithmetic::hundred(),
{
    Decimal::from_integer(PERCENT)
}

/// `rate / 100`.
fn fraction(rate: Decimal) -> (r: Option<Decimal>)
    ensures
        r.deep_view() == model::fraction(rate@),
{
    rate.checked_div(hundred())
}

/// `(1 + rate)^periods`.
fn growth_factor(rate: Decimal, periods: u64) -> (r: Option<Decimal>)
    ensures
        r.deep_view() == model::growth_factor(rate@, periods),
{
    let base = one().checked_add(rate)?;
    base.checked_powu(periods)
}

/// The value to which `future_val` grows when it earns `interest_rate`
/// percent in each of `periods_to_maturity` periods.
pub fn cash_flow_present_value(
    future_val: Decimal,
    interest_rate: Decimal,
    periods_to_maturity: u64,
) -> (r: Option<Decimal>)
    ensures
        r.deep_view() == model::cash_flow_present_value(
            future_val@,
            interest_rate@,
            periods_to_maturity,
        ),
{
    let rate = fraction(interest_rate)?;
    let factor = growth_factor(rate, periods_to_maturity)?;
    future_val.checked_mul(factor)
}

/// The value of `present_val` discounted at `discount_rate` percent over
/// each of `periods_to_maturity` periods.
pub fn cash_flow_future_value(
    present_val: Decimal,
    discount_rate: Decimal,
    periods_to_maturity: u64,
) -> (r: Option<Decimal>)
    ensures
        r.deep_view() == model::cash_flow_future_value(
            present_val@,
            discount_rate@,
            periods_to_maturity,
        ),
{
    let rate = fraction(discount_rate)?;
    let factor = growth_factor(rate, periods_to_maturity)?;
    present_val.checked_div(factor)
}

/// The factor that turns one periodic payment into the future value of the
/// whole series. The rate is a fraction, not a percentage; the rate zero has
/// no factor.
pub fn annuity_compound_factor(interest_rate: Decimal, periods_to_maturity: u64) -> (r: Option<
    Decimal,
>)
    ensures
        r.deep_view() == model::annuity_compound_factor(interest_rate@, periods_to_maturity),
        interest_rate@.is_zero() ==> r is None,
{
    let factor = growth_factor(interest_rate, periods_to_maturity)?;
    let gain = factor.checked_sub(one())?;
    gain.checked_div(interest_rate)
}

/// The compound factor of a series of payments that grow at `growth_rate`
/// percent while they earn `interest_rate` percent.
///
/// The difference of the two powers has the difference of the two rates
/// subtracted from it. The textbook factor divides by that difference
/// instead; callers that want the textbook factor must not use this
/// function for it.
pub fn annuity_growth_compound_factor(
    interest_rate: Decimal,
    growth_rate: Decimal,
    periods_to_maturity: u64,
) -> (r: Option<Decimal>)
    ensures
        r.deep_view() == model::annuity_growth_compound_factor(
            interest_rate@,
            growth_rate@,
            periods_to_maturity,
        ),
{
    let i = fraction(interest_rate)?;
    let i_base = i.checked_add(one())?;
    let i_factor = i_base.checked_powu(periods_to_maturity)?;
    let g = fraction(growth_rate)?;
    let g_base = g.checked_add(one())?;
    let g_factor = g_base.checked_powu(periods_to_maturity)?;
    let numerator = i_factor.checked_sub(g_factor)?;
    let denominator = i.checked_sub(g)?;
    numerator.checked_sub(denominator)
}

/// The factor that turns one periodic payment into the present value of the
/// whole series. The rate is a fraction, not a percentage; the rate zero has
/// no factor.
pub fn annuity_discount_factor(discount_rate: Decimal, periods_to_maturity: u64) -> (r: Option<
    Decimal,
>)
    ensures
        r.deep_view() == model::annuity_discount_factor(discount_rate@, periods_to_maturity),
        discount_rate@.is_zero() ==> r is None,
{
    let factor = growth_factor(discount_rate, periods_to_maturity)?;
    let discount = one().checked_div(factor)?;
    let loss = one().checked_sub(discount)?;
    loss.checked_div(discount_rate)
}

/// The discount factor of a series of payments that grow at `growth_rate`
/// percent and are discounted at `discount_rate` percent. Two rates that are
/// the same decimal have no factor.
pub fn annuity_growth_discount_factor(
    discount_rate: Decimal,
    growth_rate: Decimal,
    periods_to_maturity: u64,
) -> (r: Option<Decimal>)
    ensures
        r.deep_view() == model::annuity_growth_discount_factor(
            discount_rate@,
            growth_rate@,
            periods_to_maturity,
        ),
        discount_rate@ == growth_rate@ ==> r is None,
{
    let d = fraction(discount_rate)?;
    let d_base = d.checked_add(one())?;
    let d_factor = d_base.checked_powu(periods_to_maturity)?;
    let g = fraction(growth_rate)?;
    let g_base = g.checked_add(one())?;
    let g_factor = g_base.checked_powu(periods_to_maturity)?;
    let ratio = g_factor.checked_div(d_factor)?;
    let numerator = one().checked_sub(ratio)?;
    let denominator = d.checked_sub(g)?;
    numerator.checked_div(denominator)
}

/// The rate earned over `compound_periods` periods when
/// `annual_percentage_rate` percent a year is compounded
/// `compound_periods_per_annum` times a year. There is no such rate for zero
/// periods a year.
pub fn effective_interest_rate(
    annual_percentage_rate: Decimal,
    compound_periods_per_annum: Decimal,
    compound_periods: u64,
) -> (r: Option<Decimal>)
    ensures
        r.deep_view() == model::effective_interest_rate(
            annual_percentage_rate@,
            compound_periods_per_annum@,
            compound_periods,
        ),
        compound_periods_per_annum@.is_zero() ==> r is None,
{
    let rate = fraction(annual_percentage_rate)?;
    let periodic = rate.checked_div(compound_periods_per_annum)?;
    let factor = growth_factor(periodic, compound_periods)?;
    factor.checked_sub(one())
}

/// The present value of `periods_to_maturity` payments of `annuity_payment`,
/// discounted at `discount_rate` percent.
pub fn annuity_present_value(
    annuity_payment: Decimal,
    discount_rate: Decimal,
    periods_to_maturity: u64,
) -> (r: Option<Decimal>)
    ensures
        r.deep_view() == model::annuity_present_value(
            annuity_payment@,
            discount_rate@,
            periods_to_maturity,
        ),
{
    let rate = fraction(discount_rate)?;
    let factor = annuity_discount_factor(rate, periods_to_maturity)?;
    annuity_payment.checked_mul(factor)
}

/// The future value of `periods_to_maturity` payments of `annuity_payment`
/// that earn `interest_rate` percent.
pub fn annuity_future_value(
    annuity_payment: Decimal,
    interest_rate: Decimal,
    periods_to_maturity: u64,
) -> (r: Option<Decimal>)
    ensures
        r.deep_view() == model::annuity_future_value(
            annuity_payment@,
            interest_rate@,
            periods_to_maturity,
        ),
{
    let rate = fraction(interest_rate)?;
    let factor = annuity_compound_factor(rate, periods_to_maturity)?;
    annuity_payment.checked_mul(factor)
}

/// The payment times the discount rate as a fraction.
///
/// The textbook value of a perpetuity is the payment divided by the rate;
/// callers that want the textbook value must not use this function for it.
pub fn perpetuity_present_value(annuity_payment: Decimal, discount_rate: Decimal) -> (r: Option<
    Decimal,
>)
    ensures
        r.deep_view() == model::perpetuity_present_value(annuity_payment@, discount_rate@),
{
    let rate = fraction(discount_rate)?;
    annuity_payment.checked_mul(rate)
}

/// The present value of an endless series of payments that start at
/// `annuity_payment` and grow at `growth_rate` percent, discounted at
/// `discount_rate` percent. Two rates that are the same decimal have no such
/// value.
pub fn growing_perpetuity_present_value(
    annuity_payment: Decimal,
    discount_rate: Decimal,
    growth_rate: Decimal,
) -> (r: Option<Decimal>)
    ensures
        r.deep_view() == model::growing_perpetuity_present_value(
            annuity_payment@,
            discount_rate@,
            growth_rate@,
        ),
        discount_rate@ == growth_rate@ ==> r is None,
{
    let d = fraction(discount_rate)?;
    let g = fraction(growth_rate)?;
    let spread = d.checked_sub(g)?;
    annuity_payment.checked_div(spread)
}

} // verus!
