//! Time-value-of-money formulas over exact decimal numbers.
//!
//! Every formula is a short pipeline of checked decimal operations. The first
//! operation that fails ends the pipeline, and the formula reports the failure
//! as `None`; no formula panics and none returns a partial result.
//!
//! * [`decimal`] holds the number type and its mathematical view.
//! * [`backend`] holds the calls into the `rust_decimal` crate, which does the
//!   arithmetic. It is the only part of the library that is trusted rather
//!   than proved.
//! * [`arithmetic`] states what the checked operations return and offers them
//!   as methods of [`Decimal`].
//! * [`chain`] defines how a pipeline of fallible steps is sequenced.
//! * [`model`] gives each formula as a pipeline over mathematical values.
//! * [`calculate`] holds the formulas themselves.
//! * [`laws`] proves what holds of the formulas for all inputs.

pub mod arithmetic;
pub mod backend;
pub mod calculate;
pub mod chain;
pub mod decimal;
pub mod laws;
pub mod model;

pub use arithmetic::PERCENT;
pub use decimal::{Decimal, DecimalView, MAX_MANTISSA, MAX_SCALE};
