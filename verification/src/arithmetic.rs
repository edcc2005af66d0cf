//! The checked operations on decimals.
//!
//! Each operation returns either a decimal or `None`; none panics, wraps or
//! returns a best-effort value. The spec functions of this module say what an
//! operation returns. Where the `rust_decimal` crate decides by rounding and
//! overflow rules of its own, they refer to the crate's result by name.

use vstd::prelude::*;
use crate::backend;
use crate::decimal::{Decimal, DecimalView};

verus! {

/// The number of percent units in a whole.
pub const PERCENT: i64 = 100;

/// The whole number one.
pub open spec fn one() -> DecimalView {
    DecimalView::integer(1)
}

/// The whole number one hundred, the number of percent units in a whole.
pub open spec fn hundred() -> DecimalView {
    DecimalView::integer(PERCENT as int)
}

/// The outcome of `a + b`: the sum, or `None` on overflow.
pub open spec fn sum(a: DecimalView, b: DecimalView) -> Option<DecimalView> {
    backend::checked_sum(a, b)
}

/// The outcome of `a - b`: the difference, or `None` on overflow. A decimal
/// minus itself is zero, written at the scale of the operands.
pub open spec fn difference(a: DecimalView, b: DecimalView) -> Option<DecimalView> {
    if a == b {
        Some(DecimalView::zero(a.scale))
    } else {
        backend::checked_difference(a, b)
    }
}

/// The outcome of `a * b`: the product, or `None` on overflow.
pub open spec fn product(a: DecimalView, b: DecimalView) -> Option<DecimalView> {
    backend::checked_product(a, b)
}

/// The outcome of `a / b`: `None` when `b` is zero, and otherwise the
/// quotient, or `None` on overflow.
pub open spec fn quotient(a: DecimalView, b: DecimalView) -> Option<DecimalView> {
    if b.is_zero() {
        None
    } else {
        backend::checked_quotient(a, b)
    }
}

/// The outcome of `base^exponent`: one when the exponent is zero, whatever
/// the base, and otherwise the power, or `None` on overflow.
pub open spec fn power(base: DecimalView, exponent: u64) -> Option<DecimalView> {
    if exponent == 0 {
        Some(one())
    } else {
        backend::checked_power(base, exponent)
    }
}

impl Decimal {
    /// `self + other`, or `None` on overflow.
    pub fn checked_add(self, other: Decimal) -> (r: Option<Decimal>)
        ensures
            r.deep_view() == sum(self@, other@),
    {
        proof {
            use_type_invariant(&self);
            use_type_invariant(&other);
        }
        backend::checked_add(self, other)
    }

    /// `self - other`, or `None` on overflow.
    pub fn checked_sub(self, other: Decimal) -> (r: Option<Decimal>)
        ensures
            r.deep_view() == difference(self@, other@),
    {
        proof {
            use_type_invariant(&self);
            use_type_invariant(&other);
        }
        backend::checked_sub(self, other)
    }

    /// `self * other`, or `None` on overflow.
    pub fn checked_mul(self, other: Decimal) -> (r: Option<Decimal>)
        ensures
            r.deep_view() == product(self@, other@),
    {
        proof {
            use_type_invariant(&self);
            use_type_invariant(&other);
        }
        backend::checked_mul(self, other)
    }

    /// `self / divisor`, or `None` when the divisor is zero or the quotient
    /// overflows.
    pub fn checked_div(self, divisor: Decimal) -> (r: Option<Decimal>)
        ensures
            r.deep_view() == quotient(self@, divisor@),
    {
        proof {
            use_type_invariant(&self);
            use_type_invariant(&divisor);
        }
        backend::checked_div(self, divisor)
    }

    /// `self^exponent`, or `None` on overflow. The power is one when the
    /// exponent is zero, also for the base zero.
    pub fn checked_powu(self, exponent: u64) -> (r: Option<Decimal>)
        ensures
            r.deep_view() == power(self@, exponent),
    {
        proof {
            use_type_invariant(&self);
        }
        backend::checked_powu(self, exponent)
    }
}

} // verus!
