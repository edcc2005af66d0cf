//! The calls into the `rust_decimal` crate.
//!
//! Nothing in this module is proved. Each function hands its operands to
//! `rust_decimal` and gives back what that crate computed. How the crate
//! rounds and when it overflows is not restated here: the outcome of each
//! operation has a name, and the rest of the library reasons about these
//! names. The few facts that the library's laws rest on are stated beside
//! them, each as the crate's source shows it.

use vstd::prelude::*;
use crate::decimal::{Decimal, DecimalView};

verus! {

/// What `rust_decimal::Decimal::checked_add` returns for `a + b`.
pub uninterp spec fn checked_sum(a: DecimalView, b: DecimalView) -> Option<DecimalView>;

/// What `rust_decimal::Decimal::checked_sub` returns for `a - b`.
pub uninterp spec fn checked_difference(a: DecimalView, b: DecimalView) -> Option<DecimalView>;

/// What `rust_decimal::Decimal::checked_mul` returns for `a * b`.
pub uninterp spec fn checked_product(a: DecimalView, b: DecimalView) -> Option<DecimalView>;

/// What `rust_decimal::Decimal::checked_div` returns for `a / b`.
pub uninterp spec fn checked_quotient(a: DecimalView, b: DecimalView) -> Option<DecimalView>;

/// What `rust_decimal::MathematicalOps::checked_powu` returns for
/// `base^exponent`.
pub uninterp spec fn checked_power(base: DecimalView, exponent: u64) -> Option<DecimalView>;

/// Calls `rust_decimal::Decimal::checked_add`.
///
/// Trusted: the result is the crate's sum of the two operands, `None` where
/// the crate reports an overflow, and a sum that is returned is a decimal in
/// range.
#[verifier::external_body]
pub(crate) fn checked_add(a: Decimal, b: Decimal) -> (r: Option<Decimal>)
    requires
        a@.wf(),
        b@.wf(),
    ensures
        r.deep_view() == checked_sum(a@, b@),
        r matches Some(d) ==> d@.wf(),
{
    let lhs = rust_decimal::Decimal::from_i128_with_scale(a.mantissa, a.scale);
    let rhs = rust_decimal::Decimal::from_i128_with_scale(b.mantissa, b.scale);
    match lhs.checked_add(rhs) {
        Some(d) => Some(Decimal { mantissa: d.mantissa(), scale: d.scale() }),
        None => None,
    }
}

/// Calls `rust_decimal::Decimal::checked_sub`.
///
/// Trusted: the result is the crate's difference of the two operands, `None`
/// where the crate reports an overflow, and a difference that is returned is
/// a decimal in range. Subtracting a decimal from itself succeeds and gives
/// zero at the scale of the operands: they have one scale, so the crate
/// aligns nothing, and it subtracts two equal mantissas.
#[verifier::external_body]
pub(crate) fn checked_sub(a: Decimal, b: Decimal) -> (r: Option<Decimal>)
    requires
        a@.wf(),
        b@.wf(),
    ensures
        r.deep_view() == checked_difference(a@, b@),
        r matches Some(d) ==> d@.wf(),
        a@ == b@ ==> r.deep_view() == Some(DecimalView::zero(a@.scale)),
{
    let lhs = rust_decimal::Decimal::from_i128_with_scale(a.mantissa, a.scale);
    let rhs = rust_decimal::Decimal::from_i128_with_scale(b.mantissa, b.scale);
    match lhs.checked_sub(rhs) {
        Some(d) => Some(Decimal { mantissa: d.mantissa(), scale: d.scale() }),
        None => None,
    }
}

/// Calls `rust_decimal::Decimal::checked_mul`.
///
/// Trusted: the result is the crate's product of the two operands, `None`
/// where the crate reports an overflow, and a product that is returned is a
/// decimal in range.
#[verifier::external_body]
pub(crate) fn checked_mul(a: Decimal, b: Decimal) -> (r: Option<Decimal>)
    requires
        a@.wf(),
        b@.wf(),
    ensures
        r.deep_view() == checked_product(a@, b@),
        r matches Some(d) ==> d@.wf(),
{
    let lhs = rust_decimal::Decimal::from_i128_with_scale(a.mantissa, a.scale);
    let rhs = rust_decimal::Decimal::from_i128_with_scale(b.mantissa, b.scale);
    match lhs.checked_mul(rhs) {
        Some(d) => Some(Decimal { mantissa: d.mantissa(), scale: d.scale() }),
        None => None,
    }
}

/// Calls `rust_decimal::Decimal::checked_div`.
///
/// Trusted: the result is the crate's quotient of the two operands, `None`
/// where the crate reports a division by zero or an overflow, and a quotient
/// that is returned is a decimal in range. The crate reports a division by
/// zero whenever the divisor's mantissa is zero, and it tests that before
/// anything else.
#[verifier::external_body]
pub(crate) fn checked_div(a: Decimal, b: Decimal) -> (r: Option<Decimal>)
    requires
        a@.wf(),
        b@.wf(),
    ensures
        r.deep_view() == checked_quotient(a@, b@),
        r matches Some(d) ==> d@.wf(),
        b@.is_zero() ==> r is None,
{
    let lhs = rust_decimal::Decimal::from_i128_with_scale(a.mantissa, a.scale);
    let rhs = rust_decimal::Decimal::from_i128_with_scale(b.mantissa, b.scale);
    match lhs.checked_div(rhs) {
        Some(d) => Some(Decimal { mantissa: d.mantissa(), scale: d.scale() }),
        None => None,
    }
}

/// Calls `rust_decimal::MathematicalOps::checked_powu`.
///
/// Trusted: the result is the crate's power of the base, `None` where the
/// crate reports an overflow, and a power that is returned is a decimal in
/// range. For the exponent zero the crate returns the whole number one before
/// it looks at the base.
#[verifier::external_body]
pub(crate) fn checked_powu(base: Decimal, exponent: u64) -> (r: Option<Decimal>)
    requires
        base@.wf(),
    ensures
        r.deep_view() == checked_power(base@, exponent),
        r matches Some(d) ==> d@.wf(),
        exponent == 0 ==> r.deep_view() == Some(DecimalView::integer(1)),
{
    let b = rust_decimal::Decimal::from_i128_with_scale(base.mantissa, base.scale);
    match rust_decimal::MathematicalOps::checked_powu(&b, exponent) {
        Some(d) => Some(Decimal { mantissa: d.mantissa(), scale: d.scale() }),
        None => None,
    }
}

} // verus!
