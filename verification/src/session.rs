//! One deploy-phase execution session: it owns one gas ledger, one
//! reference generator seeded from (deploy hash, phase), one effect
//! record, a read view of prior global state, and the resolved
//! reference of the mint system contract. Strictly single-threaded;
//! consumed exactly once into an execution result.

use vstd::prelude::*;
use crate::effect::{
    apply_transform_v, find_pair, opt_value_view, unique_keys, Effect, TransformV, Value, ValueV,
};
use crate::error::Error;
use crate::gas::{Gas, GasLedger};
use crate::key::{Key, URef, key_eq};
use crate::rng::{create_rng, DeployRng, Phase, seed_of};

verus! {

/// The unsigned value a key currently holds under an effect record over
/// a base state: the recorded transform (or `Identity`) applied to the
/// base value. `None` where the key holds nothing, holds a value of
/// another type, or the transform would fail at commit.
pub open spec fn current_uint512(effect: Effect, store: Seq<(Key, Value)>, k: Key) -> Option<
    nat,
> {
    let t = match effect.transform_at(k) {
        Some(t) => t@,
        None => TransformV::Identity,
    };
    let base = opt_value_view(find_pair(store, k));
    match apply_transform_v(t, base) {
        Ok(Some(ValueV::UInt512(n))) => Some(n),
        _ => None,
    }
}

/// One deploy-phase execution session.
pub struct Session {
    pub gas: GasLedger,
    pub rng: DeployRng,
    pub effect: Effect,
    pub store: Vec<(Key, Value)>,
    pub mint_ref: Option<URef>,
}

impl Session {
    /// The components a session relies on throughout its life.
    pub open spec fn wf(self) -> bool {
        self.gas.wf() && self.effect.wf() && unique_keys(self.store@)
    }

    /// The base value the session's read view holds for `k`.
    pub open spec fn base_at(self, k: Key) -> Option<Value> {
        find_pair(self.store@, k)
    }

    /// The unsigned value `k` currently holds in this session: its
    /// recorded transform applied to its base value.
    pub open spec fn balance_of(self, k: Key) -> Option<nat> {
        current_uint512(self.effect, self.store@, k)
    }

    /// Open a session for one deploy phase: zero gas spent against the
    /// given budget, an empty effect record, and the reference
    /// generator seeded from the deploy hash and the phase.
    pub fn new(
        limit: Gas,
        deploy_hash: [u8; 32],
        phase: Phase,
        store: Vec<(Key, Value)>,
        mint_ref: Option<URef>,
    ) -> (r: Session)
        requires
            unique_keys(store@),
        ensures
            r.wf(),
            r.gas.used_nat() == 0,
            r.gas.limit_nat() == limit.as_nat(),
            r.effect.is_empty(),
            forall|k: Key| r.effect.op_at(k) is None,
            forall|k: Key| r.effect.transform_at(k) is None,
            r.rng.seed() == seed_of(deploy_hash@, phase),
            r.rng.drawn() == 0,
            r.store@ == store@,
            r.mint_ref == mint_ref,
    {
        Session {
            gas: GasLedger::new(limit),
            rng: create_rng(deploy_hash, phase),
            effect: Effect::new(),
            store,
            mint_ref,
        }
    }

    /// The resolved reference of the mint system contract, if the
    /// session's genesis carries one.
    pub fn get_mint(&self) -> (r: Option<URef>)
        ensures
            r == self.mint_ref,
    {
        self.mint_ref
    }

    /// Bill a charge against the session budget; on exhaustion the
    /// whole budget is charged and `GasLimit` is returned. Nothing but
    /// the ledger moves.
    pub fn charge(&mut self, amount: Gas) -> (r: Result<(), Error>)
        requires
            old(self).wf(),
        ensures
            final(self).wf(),
            final(self).rng == old(self).rng,
            final(self).effect == old(self).effect,
            final(self).store@ == old(self).store@,
            final(self).mint_ref == old(self).mint_ref,
            final(self).gas.limit_nat() == old(self).gas.limit_nat(),
            r is Ok <==> old(self).gas.used_nat() + amount.as_nat() <= old(self).gas.limit_nat(),
            r is Ok ==> final(self).gas.used_nat() == old(self).gas.used_nat() + amount.as_nat(),
            r is Err ==> r == Err::<(), Error>(Error::GasLimit) && final(self).gas.used_nat()
                == old(self).gas.limit_nat(),
    {
        self.gas.charge(amount)
    }

    /// Look the base value of `k` up in the session's read view.
    pub fn base_value(&self, k: &Key) -> (r: Option<Value>)
        ensures
            r == self.base_at(*k),
    {
        let mut i: usize = 0;
        while i < self.store.len()
            invariant
                i <= self.store@.len(),
                forall|j: int| 0 <= j < i ==> self.store@[j].0 != *k,
            decreases self.store@.len() - i,
        {
            let (key_i, v) = self.store[i];
            if key_eq(&key_i, k) {
                proof {
                    crate::effect::lemma_find_at(self.store@, *k, i as int);
                }
                return Some(v);
            }
            i += 1;
        }
        proof {
            crate::effect::lemma_find_absent(self.store@, *k);
        }
        None
    }
}

} // verus!
