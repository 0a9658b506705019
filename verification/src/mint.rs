//! The mint system contract — purse creation and balance query — and
//! the mint-purse contract built on it: mint an amount, query the new
//! purse, and revert with a numbered reason on any mismatch.

use vstd::prelude::*;
use crate::effect::{combine_ops, Op, Transform, TransformV, Value, ValueV};
use crate::error::Error;
use crate::gas::Gas;
use crate::key::{full_rights, AccessRights, Key, PurseId, URef};
use crate::result::ExecutionResult;
use crate::rng::gen_random;
use crate::session::{current_uint512, Session};
use crate::value::U512;

verus! {

broadcast use vstd::array::group_array_axioms;

/// Flat fee the core bills for dispatching one contract call.
pub const CALL_DISPATCH_COST: u64 = 10;

/// The numbered reasons the mint-purse contract reverts with (1-based;
/// 0 is reserved and unused).
#[derive(Clone, Copy, Debug, PartialEq, Eq, Structural)]
pub enum MintPurseError {
    PurseNotCreated,
    MintNotFound,
    BalanceNotFound,
    BalanceMismatch,
}

impl MintPurseError {
    /// The numeric revert code of this reason.
    pub open spec fn spec_code(self) -> u32 {
        match self {
            MintPurseError::PurseNotCreated => 1,
            MintPurseError::MintNotFound => 2,
            MintPurseError::BalanceNotFound => 3,
            MintPurseError::BalanceMismatch => 4,
        }
    }

    /// The numeric revert code of this reason.
    #[verifier::when_used_as_spec(spec_code)]
    pub fn code(self) -> (r: u32)
        ensures
            r == self.spec_code(),
    {
        match self {
            MintPurseError::PurseNotCreated => 1,
            MintPurseError::MintNotFound => 2,
            MintPurseError::BalanceNotFound => 3,
            MintPurseError::BalanceMismatch => 4,
        }
    }
}

/// The next mint draw would land on a key that already carries a
/// recorded failure; a write there must keep the failure, so no purse
/// can be created at it.
pub open spec fn next_mint_poisoned(s: Session) -> bool {
    exists|u: URef|
        u.addr@ == s.rng.next_block() && u.rights == full_rights() && (s.effect.transform_at(
            Key::URef(u),
        ) matches Some(Transform::Failure(_)))
}

/// Whether the next draw is poisoned depends on the generator and the
/// effect record alone.
proof fn lemma_poisoned_congruence(s1: Session, s2: Session)
    requires
        s1.rng == s2.rng,
        s1.effect == s2.effect,
    ensures
        next_mint_poisoned(s1) == next_mint_poisoned(s2),
{
    if next_mint_poisoned(s1) {
        let u = choose|u: URef|
            u.addr@ == s1.rng.next_block() && u.rights == full_rights() && (
            s1.effect.transform_at(Key::URef(u)) matches Some(Transform::Failure(_)));
        assert(u.addr@ == s2.rng.next_block() && u.rights == full_rights() && (
        s2.effect.transform_at(Key::URef(u)) matches Some(Transform::Failure(_))));
    }
    if next_mint_poisoned(s2) {
        let u = choose|u: URef|
            u.addr@ == s2.rng.next_block() && u.rights == full_rights() && (
            s2.effect.transform_at(Key::URef(u)) matches Some(Transform::Failure(_)));
        assert(u.addr@ == s1.rng.next_block() && u.rights == full_rights() && (
        s1.effect.transform_at(Key::URef(u)) matches Some(Transform::Failure(_))));
    }
}

/// Everything `mint` guarantees of a created purse: a fresh reference
/// with full rights drawn from the session generator, its balance set
/// to the minted amount and visible in the session, and nothing else
/// touched.
pub open spec fn mint_success_post(
    pre: Session,
    post: Session,
    purse: PurseId,
    amount: U512,
) -> bool {
    &&& post.wf()
    &&& purse.spec_value().rights == full_rights()
    &&& purse.spec_value().addr@ == pre.rng.next_block()
    &&& post.rng.seed() == pre.rng.seed()
    &&& post.rng.drawn() == pre.rng.drawn() + 1
    &&& post.store@ == pre.store@
    &&& post.mint_ref == pre.mint_ref
    &&& post.balance_of(purse.key()) == Some(amount.as_nat())
    &&& (forall|k2: Key| k2 != purse.key() ==> post.balance_of(k2) == pre.balance_of(k2))
    &&& (forall|k2: Key| k2 != purse.key() ==> post.effect.op_at(k2) == pre.effect.op_at(k2))
    &&& (forall|k2: Key|
        k2 != purse.key() ==> post.effect.transform_at(k2) == pre.effect.transform_at(k2))
    &&& post.effect.op_at(purse.key()) is Some
    &&& (post.effect.transform_at(purse.key()) matches Some(t) && t@ == TransformV::Write(
        ValueV::UInt512(amount.as_nat()),
    ))
}

/// The mint entry point `mint(amount)`: allocate a fresh unforgeable
/// reference from the session generator, record the `Write` of the
/// balance and a `Write` op at its key, and return the purse. Atomic:
/// on failure nothing of the session but the generator position moves.
/// It fails only when the drawn key already carries a recorded failure
/// — a transform conflict.
pub fn mint(session: &mut Session, amount: U512) -> (r: Result<PurseId, Error>)
    requires
        old(session).wf(),
    ensures
        final(session).wf(),
        final(session).gas == old(session).gas,
        r is Ok <==> !next_mint_poisoned(*old(session)),
        r matches Ok(p) ==> mint_success_post(*old(session), *final(session), p, amount),
        r matches Err(e) ==> (e == Error::TypeMismatch && final(session).effect == old(session).effect && final(session).store@ == old(session).store@ && final(session).mint_ref == old(session).mint_ref && final(session).rng.seed() == old(session).rng.seed() && final(session).rng.drawn() == old(session).rng.drawn() + 1),
{
    let addr = gen_random(&mut session.rng);
    let uref = URef::new(addr, AccessRights::read_add_write());
    let purse = PurseId::new(uref);
    let key = Key::URef(uref);
    proof {
        assert forall|u: URef|
            u.addr@ == old(session).rng.next_block() && u.rights
                == full_rights() implies u == uref by {
            assert(u.addr@ == uref.addr@);
            assert(u.addr =~= uref.addr);
        }
    }
    match session.effect.get_transform(&key) {
        Some(Transform::Failure(_)) => {
            proof {
                assert(next_mint_poisoned(*old(session)));
            }
            Err(Error::TypeMismatch)
        },
        _ => {
            proof {
                assert(!next_mint_poisoned(*old(session)));
            }
            session.effect.insert_transform(key, Transform::Write(Value::UInt512(amount)));
            session.effect.insert_op(key, Op::Write);
            Ok(purse)
        },
    }
}

/// What `balance` reports: with read right, exactly the value the
/// purse's key currently holds in the session — present if and only if
/// the session holds one; without read right, nothing.
pub open spec fn balance_result(s: Session, purse: PurseId, r: Option<U512>) -> bool {
    &&& (purse.spec_value().rights.read ==> (match r {
        Some(v) => s.balance_of(purse.key()) == Some(v.as_nat()),
        None => s.balance_of(purse.key()) is None,
    }))
    &&& (!purse.spec_value().rights.read ==> r is None)
}

/// The mint entry point `balance(purse)`: the current balance at the
/// purse's key, or nothing where the key holds none or the reference
/// lacks read right. Read-only: it records a `Read` op and moves
/// nothing else.
pub fn balance(session: &mut Session, purse: PurseId) -> (r: Option<U512>)
    requires
        old(session).wf(),
    ensures
        final(session).wf(),
        final(session).effect.transforms@ == old(session).effect.transforms@,
        final(session).store@ == old(session).store@,
        final(session).gas == old(session).gas,
        final(session).rng == old(session).rng,
        final(session).mint_ref == old(session).mint_ref,
        forall|k2: Key| final(session).balance_of(k2) == old(session).balance_of(k2),
        purse.spec_value().rights.read ==> final(session).effect.op_at(purse.key()) == Some(
            combine_ops(
                match old(session).effect.op_at(purse.key()) {
                    Some(p) => p,
                    None => Op::NoOp,
                },
                Op::Read,
            ),
        ),
        purse.spec_value().rights.read ==> (forall|k2: Key|
            k2 != purse.key() ==> final(session).effect.op_at(k2) == old(session).effect.op_at(
                k2,
            )),
        !purse.spec_value().rights.read ==> final(session).effect == old(session).effect,
        balance_result(*old(session), purse, r),
{
    let uref = purse.value();
    if !uref.rights.read {
        return None;
    }
    let key = Key::URef(uref);
    session.effect.insert_op(key, Op::Read);
    let t = match session.effect.get_transform(&key) {
        Some(t0) => t0,
        None => Transform::Identity,
    };
    let base = session.base_value(&key);
    match crate::effect::apply_transform(t, base) {
        Ok(Some(Value::UInt512(v))) => Some(v),
        _ => None,
    }
}

/// Create a purse holding `amount`: bill the dispatch fee, resolve the
/// mint contract, and call its `mint` entry. Fails with `GasLimit`
/// when the fee does not fit the budget, with `KeyNotFound` when the
/// mint reference is unresolved, and with `TypeMismatch` when the
/// drawn key carries a recorded failure; it succeeds in every other
/// case.
pub fn mint_purse(session: &mut Session, amount: U512) -> (r: Result<PurseId, Error>)
    requires
        old(session).wf(),
    ensures
        final(session).wf(),
        final(session).gas.limit_nat() == old(session).gas.limit_nat(),
        final(session).store@ == old(session).store@,
        final(session).mint_ref == old(session).mint_ref,
        r is Ok <==> (old(session).gas.used_nat() + CALL_DISPATCH_COST <= old(session).gas.limit_nat() && old(session).mint_ref is Some && !next_mint_poisoned(*old(session))),
        r matches Ok(p) ==> (mint_success_post(*old(session), *final(session), p, amount) && final(session).gas.used_nat() == old(session).gas.used_nat() + CALL_DISPATCH_COST),
        old(session).gas.used_nat() + CALL_DISPATCH_COST > old(session).gas.limit_nat() ==> (r
            == Err::<PurseId, Error>(Error::GasLimit) && final(session).gas.used_nat() == old(session).gas.limit_nat() && final(session).effect == old(session).effect && final(session).rng
            == old(session).rng),
        (old(session).gas.used_nat() + CALL_DISPATCH_COST <= old(session).gas.limit_nat() && old(session).mint_ref is None) ==> (r == Err::<PurseId, Error>(Error::KeyNotFound) && final(session).gas.used_nat() == old(session).gas.used_nat() + CALL_DISPATCH_COST && final(session).effect == old(session).effect && final(session).rng == old(session).rng),
        r == Err::<PurseId, Error>(Error::TypeMismatch) ==> (final(session).effect == old(session).effect && final(session).gas.used_nat() == old(session).gas.used_nat()
            + CALL_DISPATCH_COST),
{
    let fee = Gas::from_u64(CALL_DISPATCH_COST);
    match session.charge(fee) {
        Ok(()) => {},
        Err(_) => {
            return Err(Error::GasLimit);
        },
    }
    match session.get_mint() {
        Some(_) => {},
        None => {
            return Err(Error::KeyNotFound);
        },
    }
    proof {
        lemma_poisoned_congruence(*session, *old(session));
    }
    mint(session, amount)
}

/// Terminate the session with a revert: the failure carries the code
/// of the reason and whatever gas and effect have accumulated so far.
pub fn revert(session: Session, reason: MintPurseError) -> (r: ExecutionResult)
    ensures
        r matches ExecutionResult::Failure { error, cost, effect } && error == Error::Revert(
            reason.spec_code(),
        ) && cost.as_nat() == session.gas.used_nat() && effect == session.effect,
{
    let cost = session.gas.used();
    ExecutionResult::Failure { error: Error::Revert(reason.code()), cost, effect: session.effect }
}

/// The mint-purse contract: mint a fixed amount, resolve the mint
/// contract again, query the new purse's balance, and check it —
/// reverting with `PurseNotCreated`, `MintNotFound`, `BalanceNotFound`
/// or `BalanceMismatch`, and failing with `GasLimit` where a dispatch
/// fee does not fit. The session is consumed into its one result.
pub fn call(session: Session) -> (r: ExecutionResult)
    requires
        session.wf(),
    ensures
        // an unresolved mint reference, with the fee in budget, reverts
        // with the `MintNotFound` code and a non-empty charged cost
        (session.mint_ref is None && session.gas.used_nat() + CALL_DISPATCH_COST
            <= session.gas.limit_nat()) ==> (r matches ExecutionResult::Failure {
            error,
            cost,
            effect,
        } && error == Error::Revert(MintPurseError::MintNotFound.spec_code()) && cost.as_nat()
            == session.gas.used_nat() + CALL_DISPATCH_COST && cost.as_nat() > 0 && effect
            == session.effect),
        // a first fee that does not fit is gas exhaustion: the whole
        // budget is charged
        session.gas.used_nat() + CALL_DISPATCH_COST > session.gas.limit_nat() ==> (r matches
            ExecutionResult::Failure { error, cost, effect } && error == Error::GasLimit
            && cost.as_nat() == session.gas.limit_nat() && effect == session.effect),
        // the straight path: both fees fit, the mint resolves, the drawn
        // key is clean — the session succeeds, and the purse minted with
        // 12345 stands in the result's effect with exactly that balance
        (session.mint_ref is Some && session.gas.used_nat() + 2 * CALL_DISPATCH_COST
            <= session.gas.limit_nat() && !next_mint_poisoned(session)) ==> (r matches
            ExecutionResult::Success { effect, cost } && cost.as_nat() == session.gas.used_nat()
            + 2 * CALL_DISPATCH_COST && (exists|u: URef|
            u.addr@ == session.rng.next_block() && u.rights == full_rights() && current_uint512(
                effect,
                session.store@,
                Key::URef(u),
            ) == Some(12345nat))),
        // the two defensive balance checks never fire: any failure is
        // gas exhaustion or one of the two creation-time reverts
        r matches ExecutionResult::Failure { error, .. } ==> (error == Error::GasLimit || error
            == Error::Revert(MintPurseError::PurseNotCreated.spec_code()) || error == Error::Revert(
            MintPurseError::MintNotFound.spec_code(),
        )),
{
    let amount = U512::from_u64(12345);
    let mut s = session;
    let purse = match mint_purse(&mut s, amount) {
        Ok(p) => p,
        Err(Error::GasLimit) => {
            let cost = s.gas.used();
            return ExecutionResult::Failure { error: Error::GasLimit, cost, effect: s.effect };
        },
        Err(Error::KeyNotFound) => {
            return revert(s, MintPurseError::MintNotFound);
        },
        Err(_) => {
            return revert(s, MintPurseError::PurseNotCreated);
        },
    };
    let _mint_ref = match s.get_mint() {
        Some(m) => m,
        None => {
            return revert(s, MintPurseError::MintNotFound);
        },
    };
    match s.charge(Gas::from_u64(CALL_DISPATCH_COST)) {
        Ok(()) => {},
        Err(_) => {
            let cost = s.gas.used();
            return ExecutionResult::Failure { error: Error::GasLimit, cost, effect: s.effect };
        },
    }
    let queried = balance(&mut s, purse);
    match queried {
        None => revert(s, MintPurseError::BalanceNotFound),
        Some(b) => {
            if b == amount {
                let cost = s.gas.used();
                ExecutionResult::Success { effect: s.effect, cost }
            } else {
                revert(s, MintPurseError::BalanceMismatch)
            }
        },
    }
}

/// Mint-then-query law: a purse minted with an amount and queried in
/// the same session reports exactly that amount, whatever the amount —
/// zero, the largest representable value, anything between.
pub proof fn lemma_mint_then_balance(
    pre: Session,
    mid: Session,
    purse: PurseId,
    amount: U512,
    queried: Option<U512>,
)
    requires
        mint_success_post(pre, mid, purse, amount),
        balance_result(mid, purse, queried),
    ensures
        queried matches Some(v) && v.as_nat() == amount.as_nat(),
{
    assert(purse.spec_value().rights.read);
    assert(mid.balance_of(purse.key()) == Some(amount.as_nat()));
}

/// Absent-purse law: querying a purse whose key was never minted in
/// this session and holds nothing in the prior state reports nothing —
/// not a default balance.
pub proof fn lemma_balance_absent(s: Session, purse: PurseId, queried: Option<U512>)
    requires
        balance_result(s, purse, queried),
        s.effect.transform_at(purse.key()) is None,
        s.base_at(purse.key()) is None,
    ensures
        queried is None,
{
    assert(s.balance_of(purse.key()) is None);
}

} // verus!
