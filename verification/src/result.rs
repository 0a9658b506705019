//! The tagged outcome of one execution session, and the fail-and-charge
//! discipline: run a fallible step once; pass its value through on
//! success, and on failure charge the configured cost and short-circuit
//! to a `Failure` carrying it.

use vstd::prelude::*;
use crate::effect::Effect;
use crate::error::Error;
use crate::gas::Gas;

verus! {

/// Outcome of one execution session: exactly one effect record and one
/// charged cost either way. On failure the effect is always present —
/// empty or partially populated — so the caller can still account for
/// side effects of the failed execution.
#[derive(Debug)]
pub enum ExecutionResult {
    Success { effect: Effect, cost: Gas },
    Failure { error: Error, cost: Gas, effect: Effect },
}

impl ExecutionResult {
    /// The cost charged by this outcome.
    pub open spec fn cost(self) -> Gas {
        match self {
            ExecutionResult::Success { cost, .. } => cost,
            ExecutionResult::Failure { cost, .. } => cost,
        }
    }

    /// The effect record this outcome carries.
    pub open spec fn effect(self) -> Effect {
        match self {
            ExecutionResult::Success { effect, .. } => effect,
            ExecutionResult::Failure { effect, .. } => effect,
        }
    }
}

/// Fail-and-charge, first form: evaluate the outcome of one fallible
/// step. On success the step's value passes through untouched and
/// nothing is charged here. On failure the configured cost — and only
/// it — is charged, and the session must terminate with the returned
/// `Failure`, whose effect is empty.
pub fn on_fail_charge<T>(step: Result<T, Error>, error_cost: Gas) -> (r: Result<
    T,
    ExecutionResult,
>)
    ensures
        step matches Ok(v) ==> (r matches Ok(w) && w == v),
        step matches Err(e) ==> (r matches Err(fail) && fail matches ExecutionResult::Failure {
            error,
            cost,
            effect,
        } && error == e && cost.as_nat() == error_cost.as_nat() && effect.wf()
            && effect.is_empty()),
{
    match step {
        Ok(v) => Ok(v),
        Err(e) => Err(
            ExecutionResult::Failure { error: e, cost: error_cost, effect: Effect::new() },
        ),
    }
}

/// Fail-and-charge, second form: as the first, but on failure the
/// returned `Failure` carries exactly the effect record built for the
/// failure path — nothing more, nothing less — so that side effects
/// that must stay visible (a debited payment purse) are still recorded
/// even though the step did not complete. The record is used only on
/// the failure path; on success it is dropped untouched.
pub fn on_fail_charge_with_effect<T>(
    step: Result<T, Error>,
    error_cost: Gas,
    failure_effect: Effect,
) -> (r: Result<T, ExecutionResult>)
    ensures
        step matches Ok(v) ==> (r matches Ok(w) && w == v),
        step matches Err(e) ==> (r matches Err(fail) && fail matches ExecutionResult::Failure {
            error,
            cost,
            effect,
        } && error == e && cost.as_nat() == error_cost.as_nat() && effect == failure_effect),
{
    match step {
        Ok(v) => Ok(v),
        Err(e) => Err(
            ExecutionResult::Failure { error: e, cost: error_cost, effect: failure_effect },
        ),
    }
}

/// One fail-and-charge use around a completed step: on success, finish
/// with the caller's success cost — the failure charge is never the one
/// billed; on failure, exactly the configured error cost is.
pub fn on_fail_charge_test_helper<T>(
    step: Result<T, Error>,
    success_cost: Gas,
    error_cost: Gas,
) -> (r: ExecutionResult)
    ensures
        step is Ok ==> (r matches ExecutionResult::Success { effect, cost } && cost.as_nat()
            == success_cost.as_nat() && effect.wf() && effect.is_empty()),
        step matches Err(e) ==> (r matches ExecutionResult::Failure { error, cost, effect }
            && error == e && cost.as_nat() == error_cost.as_nat() && effect.wf()
            && effect.is_empty()),
{
    match on_fail_charge(step, error_cost) {
        Ok(_) => ExecutionResult::Success { effect: Effect::default(), cost: success_cost },
        Err(fail) => fail,
    }
}

} // verus!
