//! End-to-end mint scenarios: mint then query in one session, queries
//! of purses that were never minted, the unresolved-mint failure, and
//! gas exhaustion.

use engine_core::effect::Op;
use engine_core::error::Error;
use engine_core::gas::Gas;
use engine_core::key::{AccessRights, Key, PurseId, URef};
use engine_core::mint::{balance, call, mint, mint_purse, MintPurseError};
use engine_core::result::ExecutionResult;
use engine_core::rng::Phase;
use engine_core::session::Session;
use engine_core::value::U512;

fn mint_ref() -> URef {
    URef::new([0xEEu8; 32], AccessRights::read_add_write())
}

fn fresh_session(limit: u64, with_mint: bool) -> Session {
    Session::new(
        Gas::from_u64(limit),
        [1u8; 32],
        Phase::Session,
        Vec::new(),
        if with_mint { Some(mint_ref()) } else { None },
    )
}

#[test]
fn mint_then_balance_returns_the_amount() {
    let mut s = fresh_session(1000, true);
    let amount = U512::from_u64(12345);
    let purse = mint(&mut s, amount).expect("fresh key");
    assert_eq!(balance(&mut s, purse), Some(amount));
}

#[test]
fn mint_zero_and_boundary_amounts() {
    let mut s = fresh_session(1000, true);
    let zero = U512::zero();
    let top = U512::max_value();

    let p0 = mint(&mut s, zero).expect("fresh key");
    let p1 = mint(&mut s, top).expect("fresh key");
    assert_eq!(balance(&mut s, p0), Some(zero));
    assert_eq!(balance(&mut s, p1), Some(top));
}

#[test]
fn minted_purses_are_distinct_and_recorded() {
    let mut s = fresh_session(1000, true);
    let p1 = mint(&mut s, U512::from_u64(1)).expect("fresh key");
    let p2 = mint(&mut s, U512::from_u64(2)).expect("fresh key");
    assert_ne!(p1.value().addr, p2.value().addr);
    assert_eq!(s.effect.get_op(&p1.key()), Some(Op::Write));
    assert_eq!(balance(&mut s, p1), Some(U512::from_u64(1)));
    assert_eq!(balance(&mut s, p2), Some(U512::from_u64(2)));
}

#[test]
fn balance_of_unknown_purse_is_not_found() {
    let mut s = fresh_session(1000, true);
    let stranger = PurseId::new(URef::new([0x77u8; 32], AccessRights::read_add_write()));
    assert_eq!(balance(&mut s, stranger), None);
}

#[test]
fn balance_without_read_right_is_not_found() {
    let mut s = fresh_session(1000, true);
    let purse = mint(&mut s, U512::from_u64(5)).expect("fresh key");
    let blinded = PurseId::new(URef::new(
        purse.value().addr,
        AccessRights { read: false, write: true, add: true },
    ));
    assert_eq!(balance(&mut s, blinded), None);
}

#[test]
fn call_succeeds_when_mint_resolves() {
    let s = fresh_session(1000, true);
    match call(s) {
        ExecutionResult::Success { cost, effect } => {
            assert_eq!(cost, Gas::from_u64(20));
            // the purse's write and its read are both on record
            assert_eq!(effect.ops.len(), 1);
            assert_eq!(effect.transforms.len(), 1);
        }
        ExecutionResult::Failure { error, .. } => panic!("unexpected failure: {:?}", error),
    }
}

#[test]
fn call_without_mint_reverts_with_mint_not_found() {
    let s = fresh_session(1000, false);
    match call(s) {
        ExecutionResult::Failure { error, cost, .. } => {
            assert_eq!(error, Error::Revert(MintPurseError::MintNotFound.code()));
            assert_ne!(cost, Gas::from_u64(0), "a failed phase still bills its cost");
        }
        ExecutionResult::Success { .. } => panic!("must not succeed without a mint"),
    }
}

#[test]
fn call_with_tiny_budget_fails_with_gas_limit() {
    let s = fresh_session(5, true);
    match call(s) {
        ExecutionResult::Failure { error, cost, .. } => {
            assert_eq!(error, Error::GasLimit);
            // exhaustion bills the whole budget
            assert_eq!(cost, Gas::from_u64(5));
        }
        ExecutionResult::Success { .. } => panic!("must not succeed on a tiny budget"),
    }
}

#[test]
fn revert_codes_are_one_based() {
    assert_eq!(MintPurseError::PurseNotCreated.code(), 1);
    assert_eq!(MintPurseError::MintNotFound.code(), 2);
    assert_eq!(MintPurseError::BalanceNotFound.code(), 3);
    assert_eq!(MintPurseError::BalanceMismatch.code(), 4);
}

#[test]
fn balance_reads_prior_state_through_the_transforms() {
    let uref = URef::new([0x10u8; 32], AccessRights::read_add_write());
    let purse = PurseId::new(uref);
    let store = vec![(Key::URef(uref), engine_core::effect::Value::UInt512(U512::from_u64(100)))];
    let mut s = Session::new(
        Gas::from_u64(1000),
        [1u8; 32],
        Phase::Session,
        store,
        Some(mint_ref()),
    );
    // committed state alone
    assert_eq!(balance(&mut s, purse), Some(U512::from_u64(100)));
    // a delta recorded this session lands on it
    s.effect.insert_transform(
        Key::URef(uref),
        engine_core::effect::Transform::AddUInt512(U512::from_u64(3)),
    );
    assert_eq!(balance(&mut s, purse), Some(U512::from_u64(103)));
    // the read marks are on record
    assert_eq!(s.effect.get_op(&purse.key()), Some(Op::Read));
}

#[test]
fn mint_purse_reports_the_unresolved_mint() {
    let mut s = fresh_session(1000, false);
    assert!(matches!(
        mint_purse(&mut s, U512::from_u64(3)),
        Err(Error::KeyNotFound)
    ));
    let mut s2 = fresh_session(1000, true);
    assert!(mint_purse(&mut s2, U512::from_u64(3)).is_ok());
}
