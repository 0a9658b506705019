//! The fail-and-charge discipline: success passes through with the
//! caller's cost, failure bills exactly the configured charge, and a
//! failure-path effect record is carried over verbatim.

use engine_core::effect::{Effect, Op, Transform};
use engine_core::error::Error;
use engine_core::gas::Gas;
use engine_core::key::Key;
use engine_core::result::{
    on_fail_charge, on_fail_charge_test_helper, on_fail_charge_with_effect, ExecutionResult,
};

#[test]
fn on_fail_charge_ok_test() {
    let val = Gas::from_u64(123);
    match on_fail_charge_test_helper(Ok(()), val, Gas::from_u64(456)) {
        ExecutionResult::Success { cost, .. } => assert_eq!(cost, val),
        ExecutionResult::Failure { .. } => panic!("Should be success"),
    }
}

#[test]
fn on_fail_charge_err_laziness_test() {
    let error_cost = Gas::from_u64(456);
    match on_fail_charge_test_helper(
        Err(Error::GasLimit) as Result<(), _>,
        Gas::from_u64(123),
        error_cost,
    ) {
        ExecutionResult::Success { .. } => panic!("Should fail"),
        ExecutionResult::Failure { cost, .. } => assert_eq!(cost, error_cost),
    }
}

#[test]
fn on_fail_charge_with_action() {
    let input: Result<(), Error> = Err(Error::GasLimit);
    let mut effect = Effect::default();
    effect.insert_op(Key::Hash([42u8; 32]), Op::Read);
    effect.insert_transform(Key::Hash([42u8; 32]), Transform::Identity);
    let f = match on_fail_charge_with_effect(input, Gas::from_u64(456), effect) {
        Ok(()) => panic!("Should fail"),
        Err(fail) => fail,
    };
    match f {
        ExecutionResult::Success { .. } => panic!("Should fail"),
        ExecutionResult::Failure { cost, effect, .. } => {
            assert_eq!(cost, Gas::from_u64(456));
            // Check if the containers are non-empty
            assert_eq!(effect.ops.len(), 1);
            assert_eq!(effect.transforms.len(), 1);
        }
    }
}

#[test]
fn on_fail_charge_passes_value_through() {
    match on_fail_charge(Ok::<u32, Error>(7), Gas::from_u64(456)) {
        Ok(v) => assert_eq!(v, 7),
        Err(_) => panic!("Should be success"),
    }
}

#[test]
fn on_fail_charge_failure_keeps_error_and_empty_effect() {
    match on_fail_charge(Err::<u32, Error>(Error::KeyNotFound), Gas::from_u64(9)) {
        Ok(_) => panic!("Should fail"),
        Err(ExecutionResult::Failure { error, cost, effect }) => {
            assert_eq!(error, Error::KeyNotFound);
            assert_eq!(cost, Gas::from_u64(9));
            assert_eq!(effect.ops.len(), 0);
            assert_eq!(effect.transforms.len(), 0);
        }
        Err(_) => panic!("Should be a failure result"),
    }
}
