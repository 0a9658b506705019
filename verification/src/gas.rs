//! Gas: the abstract unit of computational cost, and the per-session
//! ledger that accumulates it against a fixed budget.

use vstd::prelude::*;
use crate::error::Error;
use crate::value::U512;

verus! {

/// A non-negative amount of computational cost.
#[derive(Clone, Copy, Debug)]
pub struct Gas(U512);

impl Gas {
    /// The mathematical amount of cost this value stands for.
    pub closed spec fn as_nat(self) -> nat {
        self.0.as_nat()
    }

    /// Embed a machine word.
    pub fn from_u64(v: u64) -> (r: Gas)
        ensures
            r.as_nat() == v as nat,
    {
        Gas(U512::from_u64(v))
    }

    /// Wrap an exact amount.
    pub fn from_u512(v: U512) -> (r: Gas)
        ensures
            r.as_nat() == v.as_nat(),
    {
        Gas(v)
    }

    /// The zero cost.
    pub fn zero() -> (r: Gas)
        ensures
            r.as_nat() == 0,
    {
        Gas(U512::zero())
    }
}

impl Default for Gas {
    /// The zero cost.
    fn default() -> (r: Gas)
        ensures
            r.as_nat() == 0,
    {
        Gas::zero()
    }
}

impl PartialEq for Gas {
    /// Exact comparison of the amounts.
    fn eq(&self, other: &Gas) -> (r: bool) {
        self.0 == other.0
    }
}

impl vstd::std_specs::cmp::PartialEqSpecImpl for Gas {
    open spec fn obeys_eq_spec() -> bool {
        true
    }

    open spec fn eq_spec(&self, other: &Gas) -> bool {
        self.as_nat() == other.as_nat()
    }
}

/// The per-session cost counter: monotonically accumulating, bounded by
/// a budget fixed at session start. Exceeding the budget is the distinct
/// `GasLimit` error, never a silent wrap or saturation.
#[derive(Clone, Copy, Debug)]
pub struct GasLedger {
    used: Gas,
    limit: Gas,
}

impl GasLedger {
    /// Cost accumulated so far.
    pub closed spec fn used_nat(self) -> nat {
        self.used.as_nat()
    }

    /// The session budget.
    pub closed spec fn limit_nat(self) -> nat {
        self.limit.as_nat()
    }

    /// The counter never passes the budget.
    pub open spec fn wf(self) -> bool {
        self.used_nat() <= self.limit_nat()
    }

    /// A fresh ledger: zero spent, the given budget.
    pub fn new(limit: Gas) -> (r: GasLedger)
        ensures
            r.used_nat() == 0,
            r.limit_nat() == limit.as_nat(),
            r.wf(),
    {
        GasLedger { used: Gas::zero(), limit }
    }

    /// Cost accumulated so far.
    pub fn used(&self) -> (r: Gas)
        ensures
            r.as_nat() == self.used_nat(),
    {
        self.used
    }

    /// The session budget.
    pub fn limit(&self) -> (r: Gas)
        ensures
            r.as_nat() == self.limit_nat(),
    {
        self.limit
    }

    /// Add a charge. Succeeds exactly when the new total stays within the
    /// budget; otherwise the whole budget is charged and the session must
    /// fail with `GasLimit`.
    pub fn charge(&mut self, amount: Gas) -> (r: Result<(), Error>)
        requires
            old(self).wf(),
        ensures
            final(self).limit_nat() == old(self).limit_nat(),
            final(self).wf(),
            r is Ok <==> old(self).used_nat() + amount.as_nat() <= old(self).limit_nat(),
            r is Ok ==> final(self).used_nat() == old(self).used_nat() + amount.as_nat(),
            r is Err ==> r == Err::<(), Error>(Error::GasLimit) && final(self).used_nat() == old(
                self,
            ).limit_nat(),
    {
        match self.used.0.checked_add(&amount.0) {
            Some(sum) => {
                if sum.le(&self.limit.0) {
                    self.used = Gas(sum);
                    Ok(())
                } else {
                    self.used = self.limit;
                    Err(Error::GasLimit)
                }
            },
            None => {
                proof {
                    self.limit.0.lemma_value_in_range();
                }
                self.used = self.limit;
                Err(Error::GasLimit)
            },
        }
    }
}

} // verus!
