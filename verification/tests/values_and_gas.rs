//! The wide integer's exact arithmetic and comparison, and the gas
//! ledger's budget discipline.

use engine_core::error::Error;
use engine_core::gas::{Gas, GasLedger};
use engine_core::value::U512;

#[test]
fn u512_addition_is_exact() {
    let a = U512::from_u64(2);
    let b = U512::from_u64(3);
    assert_eq!(a.checked_add(&b), Some(U512::from_u64(5)));
}

#[test]
fn u512_addition_carries_across_limbs() {
    let max_word = U512::from_u64(u64::MAX);
    let one = U512::from_u64(1);
    let sum = max_word.checked_add(&one).expect("fits easily");
    // 2^64 is not a single word; adding nothing keeps it, and it is
    // strictly above any single word
    assert!(max_word.le(&sum));
    assert!(!sum.le(&max_word));
    assert_ne!(sum, max_word);
}

#[test]
fn u512_addition_refuses_overflow() {
    let top = U512::max_value();
    let one = U512::from_u64(1);
    assert_eq!(top.checked_add(&one), None);
    assert_eq!(top.checked_add(&top), None);
    // but the largest value plus zero stands
    assert_eq!(top.checked_add(&U512::zero()), Some(top));
}

#[test]
fn u512_comparison_is_exact() {
    let small = U512::from_u64(41);
    let big = U512::from_u64(42);
    assert!(small.le(&big));
    assert!(!big.le(&small));
    assert!(big.le(&big));
    assert!(big.le(&U512::max_value()));
    assert_eq!(big, U512::from_u64(42));
    assert_ne!(big, small);
}

#[test]
fn gas_ledger_accumulates_within_budget() {
    let mut ledger = GasLedger::new(Gas::from_u64(100));
    assert_eq!(ledger.used(), Gas::from_u64(0));
    assert_eq!(ledger.charge(Gas::from_u64(40)), Ok(()));
    assert_eq!(ledger.charge(Gas::from_u64(60)), Ok(()));
    assert_eq!(ledger.used(), Gas::from_u64(100));
}

#[test]
fn gas_ledger_exhaustion_charges_the_whole_budget() {
    let mut ledger = GasLedger::new(Gas::from_u64(100));
    assert_eq!(ledger.charge(Gas::from_u64(40)), Ok(()));
    // one unit over the budget: the distinct GasLimit error, and the
    // full budget is billed — no wrap, no silent saturation
    assert_eq!(ledger.charge(Gas::from_u64(61)), Err(Error::GasLimit));
    assert_eq!(ledger.used(), Gas::from_u64(100));
    assert_eq!(ledger.limit(), Gas::from_u64(100));
}

#[test]
fn gas_default_is_zero() {
    assert_eq!(Gas::default(), Gas::from_u64(0));
    assert_eq!(Gas::from_u512(U512::from_u64(17)), Gas::from_u64(17));
}
