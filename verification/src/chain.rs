//! Sequencing of fallible steps.
//!
//! A formula is a chain of steps. Each step is a checked operation on the
//! formula's inputs and on the values of the steps before it. The first step
//! that fails ends the chain, and the chain's result is then the failure. In
//! executable code a chain is written with `?`; in specifications it is
//! written with [`chain`].

use vstd::prelude::*;
use crate::decimal::DecimalView;

verus! {

/// The result of a chain whose first step had the outcome `step` and whose
/// later steps, given the first step's value, have the outcome `rest`.
pub open spec fn chain(
    step: Option<DecimalView>,
    rest: spec_fn(DecimalView) -> Option<DecimalView>,
) -> Option<DecimalView> {
    match step {
        Some(value) => rest(value),
        None => None,
    }
}

/// A chain whose first step fails is a failure, whatever its later steps
/// are.
pub proof fn lemma_chain_stops_at_failure(rest: spec_fn(DecimalView) -> Option<DecimalView>)
    ensures
        chain(None, rest) is None,
{
}

/// A chain has a value exactly when its first step has one and the later
/// steps, run on that value, have one; the chain's value is then theirs.
pub proof fn lemma_chain_needs_every_step(
    step: Option<DecimalView>,
    rest: spec_fn(DecimalView) -> Option<DecimalView>,
)
    ensures
        chain(step, rest) is Some <==> step is Some && rest(step->0) is Some,
        step is Some ==> chain(step, rest) == rest(step->0),
{
}

} // verus!
