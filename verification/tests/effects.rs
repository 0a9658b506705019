//! The effect model: coarsening of access marks, associative
//! combination of transforms, and what applying a transform yields.

use engine_core::effect::{
    apply_transform, combine_ops_exec, combine_transforms, Effect, Op, Transform, Value,
};
use engine_core::error::Error;
use engine_core::key::Key;
use engine_core::value::U512;

#[test]
fn ops_coarsen() {
    assert_eq!(combine_ops_exec(Op::NoOp, Op::Read), Op::Read);
    assert_eq!(combine_ops_exec(Op::Read, Op::NoOp), Op::Read);
    assert_eq!(combine_ops_exec(Op::Read, Op::Read), Op::Read);
    assert_eq!(combine_ops_exec(Op::Add, Op::Add), Op::Add);
    assert_eq!(combine_ops_exec(Op::Read, Op::Write), Op::Write);
    assert_eq!(combine_ops_exec(Op::Write, Op::Read), Op::Write);
    assert_eq!(combine_ops_exec(Op::Read, Op::Add), Op::Write);
}

#[test]
fn transforms_combine_in_order() {
    let w5 = Transform::Write(Value::UInt512(U512::from_u64(5)));
    let w9 = Transform::Write(Value::UInt512(U512::from_u64(9)));
    // identity is the unit
    assert!(matches!(
        combine_transforms(Transform::Identity, w5),
        Transform::Write(Value::UInt512(v)) if v == U512::from_u64(5)
    ));
    // a later write replaces what stands before it
    assert!(matches!(
        combine_transforms(w5, w9),
        Transform::Write(Value::UInt512(v)) if v == U512::from_u64(9)
    ));
    // numeric deltas add exactly
    assert!(matches!(
        combine_transforms(
            Transform::AddUInt512(U512::from_u64(2)),
            Transform::AddUInt512(U512::from_u64(3))
        ),
        Transform::AddUInt512(v) if v == U512::from_u64(5)
    ));
    // a delta lands on a written value
    assert!(matches!(
        combine_transforms(w5, Transform::AddUInt512(U512::from_u64(3))),
        Transform::Write(Value::UInt512(v)) if v == U512::from_u64(8)
    ));
}

#[test]
fn incompatible_transforms_are_an_error() {
    // mixing delta widths is a type mismatch, not a silent pick
    assert!(matches!(
        combine_transforms(Transform::AddInt32(1), Transform::AddUInt512(U512::from_u64(1))),
        Transform::Failure(Error::TypeMismatch)
    ));
    // a delta over the value range is the overflow failure
    assert!(matches!(
        combine_transforms(Transform::AddInt32(i32::MAX), Transform::AddInt32(1)),
        Transform::Failure(Error::Overflow)
    ));
    assert!(matches!(
        combine_transforms(
            Transform::AddUInt512(U512::max_value()),
            Transform::AddUInt512(U512::from_u64(1))
        ),
        Transform::Failure(Error::Overflow)
    ));
    // a failure, once recorded, is never dropped
    assert!(matches!(
        combine_transforms(
            Transform::Failure(Error::TypeMismatch),
            Transform::Write(Value::UInt512(U512::from_u64(1)))
        ),
        Transform::Failure(Error::TypeMismatch)
    ));
}

#[test]
fn applying_transforms_reports_each_error() {
    // a delta with nothing beneath it
    assert_eq!(
        apply_transform(Transform::AddInt32(1), None),
        Err(Error::KeyNotFound)
    );
    // a delta on a value of the other width
    assert_eq!(
        apply_transform(
            Transform::AddInt32(1),
            Some(Value::UInt512(U512::from_u64(1)))
        ),
        Err(Error::TypeMismatch)
    );
    // a delta past the range
    assert_eq!(
        apply_transform(Transform::AddInt32(1), Some(Value::Int32(i32::MAX))),
        Err(Error::Overflow)
    );
    // a recorded failure surfaces as itself
    assert_eq!(
        apply_transform(Transform::Failure(Error::GasLimit), Some(Value::Int32(0))),
        Err(Error::GasLimit)
    );
    // and the straight cases work
    assert_eq!(apply_transform(Transform::Identity, None), Ok(None));
    assert_eq!(
        apply_transform(Transform::AddInt32(2), Some(Value::Int32(40))),
        Ok(Some(Value::Int32(42)))
    );
}

#[test]
fn effect_inserts_combine_per_key() {
    let mut effect = Effect::new();
    let k = Key::Hash([1u8; 32]);
    effect.insert_op(k, Op::Read);
    effect.insert_op(k, Op::Write);
    assert_eq!(effect.ops.len(), 1);
    assert_eq!(effect.get_op(&k), Some(Op::Write));

    effect.insert_transform(k, Transform::Write(Value::UInt512(U512::from_u64(5))));
    effect.insert_transform(k, Transform::AddUInt512(U512::from_u64(3)));
    assert_eq!(effect.transforms.len(), 1);
    assert!(matches!(
        effect.get_transform(&k),
        Some(Transform::Write(Value::UInt512(v))) if v == U512::from_u64(8)
    ));

    // another key stands apart
    let k2 = Key::Account([1u8; 32]);
    effect.insert_op(k2, Op::Add);
    assert_eq!(effect.ops.len(), 2);
    assert_eq!(effect.get_op(&k2), Some(Op::Add));
    assert_eq!(effect.get_op(&Key::Hash([2u8; 32])), None);
}
