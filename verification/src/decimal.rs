//! The decimal number that the formulas compute with.

use vstd::prelude::*;

verus! {

/// The largest magnitude of a mantissa: `2^96 - 1`.
pub const MAX_MANTISSA: i128 = 79_228_162_514_264_337_593_543_950_335;

/// The largest number of digits after the decimal point.
pub const MAX_SCALE: u32 = 28;

/// The mathematical content of a [`Decimal`]: the number
/// `mantissa / 10^scale`, written with exactly `scale` digits after the point.
pub struct DecimalView {
    pub mantissa: int,
    pub scale: nat,
}

impl DecimalView {
    /// The mantissa fits in 96 bits and the scale is at most 28.
    pub open spec fn wf(self) -> bool {
        &&& -MAX_MANTISSA <= self.mantissa <= MAX_MANTISSA
        &&& self.scale <= MAX_SCALE
    }

    /// The number is zero, at whatever scale it is written.
    pub open spec fn is_zero(self) -> bool {
        self.mantissa == 0
    }

    /// The whole number `n`, written without a fractional part.
    pub open spec fn integer(n: int) -> DecimalView {
        DecimalView { mantissa: n, scale: 0 }
    }

    /// Zero, written with `scale` digits after the point.
    pub open spec fn zero(scale: nat) -> DecimalView {
        DecimalView { mantissa: 0, scale }
    }
}

/// A signed decimal number with a 96-bit mantissa and up to 28 digits after
/// the decimal point.
///
/// Two decimals are `==` when they have the same mantissa and the same scale,
/// so `4` and `4.0` are different values of this type.
#[derive(Clone, Copy, Debug, PartialEq, Eq, Structural)]
pub struct Decimal {
    pub(crate) mantissa: i128,
    pub(crate) scale: u32,
}

impl View for Decimal {
    type V = DecimalView;

    closed spec fn view(&self) -> DecimalView {
        DecimalView { mantissa: self.mantissa as int, scale: self.scale as nat }
    }
}

impl DeepView for Decimal {
    type V = DecimalView;

    open spec fn deep_view(&self) -> DecimalView {
        self@
    }
}

impl Decimal {
    /// Every decimal is in range.
    #[verifier::type_invariant]
    pub open spec fn in_range(self) -> bool {
        self@.wf()
    }

    /// The decimal `mantissa / 10^scale`, or `None` when the mantissa needs
    /// more than 96 bits or the scale is above 28.
    pub fn new(mantissa: i128, scale: u32) -> (r: Option<Decimal>)
        ensures
            r is Some <==> (DecimalView { mantissa: mantissa as int, scale: scale as nat }).wf(),
            r matches Some(d) ==> d@ == (DecimalView { mantissa: mantissa as int, scale: scale as nat }),
    {
        if scale <= MAX_SCALE && -MAX_MANTISSA <= mantissa && mantissa <= MAX_MANTISSA {
            Some(Decimal { mantissa, scale })
        } else {
            None
        }
    }

    /// The whole number `n`.
    pub fn from_integer(n: i64) -> (r: Decimal)
        ensures
            r@ == DecimalView::integer(n as int),
    {
        Decimal { mantissa: n as i128, scale: 0 }
    }

    /// The digits of the number as a signed integer: the number times
    /// `10^scale`.
    pub fn mantissa(&self) -> (m: i128)
        ensures
            m == self@.mantissa,
            -MAX_MANTISSA <= m <= MAX_MANTISSA,
    {
        proof {
            use_type_invariant(self);
        }
        self.mantissa
    }

    /// The number of digits after the decimal point.
    pub fn scale(&self) -> (s: u32)
        ensures
            s == self@.scale,
            s <= MAX_SCALE,
    {
        proof {
            use_type_invariant(self);
        }
        self.scale
    }

    /// Whether the number is zero, at whatever scale it is written.
    pub fn is_zero(&self) -> (z: bool)
        ensures
            z == self@.is_zero(),
    {
        self.mantissa == 0
    }
}

} // verus!
