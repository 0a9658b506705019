//! Wide unsigned integer used for balances and gas: a 512-bit value held
//! as eight 64-bit limbs, least significant first, with explicit checked
//! arithmetic (no silent wrap) and exact comparison.

use vstd::prelude::*;
use vstd::arithmetic::power2::{pow2, lemma_pow2_adds, lemma_pow2_pos, lemma2_to64};
use vstd::arithmetic::mul::{lemma_mul_inequality, lemma_mul_is_distributive_add};

verus! {

/// Radix of one limb, `2^64`.
pub const LIMB_RADIX: u128 = 0x1_0000_0000_0000_0000;

/// Mathematical value of a little-endian sequence of 64-bit limbs.
pub open spec fn limbs_val(s: Seq<u64>) -> nat
    decreases s.len(),
{
    if s.len() == 0 {
        0
    } else {
        (limbs_val(s.drop_last()) + s.last() * pow2((64 * (s.len() - 1)) as nat)) as nat
    }
}

/// 512-bit unsigned integer: eight 64-bit limbs, least significant first.
#[derive(Clone, Copy, Debug)]
pub struct U512 {
    limbs: [u64; 8],
}

/// Any sequence of `n` limbs stands for a value below `2^(64 n)`.
pub proof fn lemma_limbs_val_bound(s: Seq<u64>)
    ensures
        limbs_val(s) < pow2((64 * s.len()) as nat),
    decreases s.len(),
{
    lemma_pow2_pos((64 * s.len()) as nat);
    if s.len() > 0 {
        let n = s.len();
        let p = pow2((64 * (n - 1)) as nat);
        lemma_limbs_val_bound(s.drop_last());
        lemma_pow2_adds((64 * (n - 1)) as nat, 64);
        lemma2_to64();
        assert(s.last() * p <= 0xFFFF_FFFF_FFFF_FFFF * p) by {
            lemma_mul_inequality(s.last() as int, 0xFFFF_FFFF_FFFF_FFFF, p as int);
        }
        assert(p + 0xFFFF_FFFF_FFFF_FFFF * p == 0x1_0000_0000_0000_0000 * p) by {
            lemma_mul_is_distributive_add(p as int, 1, 0xFFFF_FFFF_FFFF_FFFF);
        }
        assert(pow2((64 * n) as nat) == pow2((64 * (n - 1)) as nat) * pow2(64));
    }
}

/// If two equally long limb sequences agree above position `i` and
/// disagree at `i`, the one smaller at `i` stands for the smaller value.
pub proof fn lemma_limbs_val_lt(s1: Seq<u64>, s2: Seq<u64>, i: int)
    requires
        s1.len() == s2.len(),
        0 <= i < s1.len(),
        s1[i] < s2[i],
        forall|j: int| i < j < s1.len() ==> s1[j] == s2[j],
    ensures
        limbs_val(s1) < limbs_val(s2),
    decreases s1.len(),
{
    let n = s1.len();
    if i == n - 1 {
        let p = pow2((64 * (n - 1)) as nat);
        lemma_limbs_val_bound(s1.drop_last());
        assert((s1[i] + 1) * p <= s2[i] * p) by {
            lemma_mul_inequality(s1[i] + 1, s2[i] as int, p as int);
        }
        assert((s1[i] + 1) * p == s1[i] * p + p) by {
            lemma_mul_is_distributive_add(p as int, s1[i] as int, 1);
        }
        assert(limbs_val(s2.drop_last()) >= 0);
    } else {
        lemma_limbs_val_lt(s1.drop_last(), s2.drop_last(), i);
        assert(s1.last() == s2.last());
    }
}

/// Extending a prefix by one limb adds that limb at its weight.
proof fn lemma_prefix_step(s: Seq<u64>, i: int)
    requires
        0 <= i < s.len(),
    ensures
        limbs_val(s.subrange(0, i + 1)) == limbs_val(s.subrange(0, i)) + s[i] * pow2(
            (64 * i) as nat,
        ),
{
    let p = s.subrange(0, i + 1);
    assert(p.drop_last() =~= s.subrange(0, i));
    assert(p.last() == s[i]);
}

/// A sequence whose limbs above position zero are all zero stands for
/// its first limb.
proof fn lemma_val_low_limb(s: Seq<u64>)
    requires
        s.len() >= 1,
        forall|i: int| 1 <= i < s.len() ==> s[i] == 0,
    ensures
        limbs_val(s) == s[0],
    decreases s.len(),
{
    lemma2_to64();
    if s.len() == 1 {
        assert(s.drop_last().len() == 0);
        assert(limbs_val(s) == limbs_val(s.drop_last()) + s.last() * pow2(0));
        assert(s.last() * 1 == s.last());
    } else {
        lemma_val_low_limb(s.drop_last());
        assert(s.drop_last()[0] == s[0]);
        assert(s.last() == 0);
        assert(s.last() * pow2((64 * (s.len() - 1)) as nat) == 0);
    }
}

/// A sequence of all-ones limbs stands for the largest representable value.
proof fn lemma_val_all_ones(s: Seq<u64>)
    requires
        forall|i: int| 0 <= i < s.len() ==> s[i] == 0xFFFF_FFFF_FFFF_FFFFu64,
    ensures
        limbs_val(s) == pow2((64 * s.len()) as nat) - 1,
    decreases s.len(),
{
    lemma2_to64();
    if s.len() == 0 {
    } else {
        let n = s.len();
        let p = pow2((64 * (n - 1)) as nat);
        lemma_val_all_ones(s.drop_last());
        lemma_pow2_adds((64 * (n - 1)) as nat, 64);
        assert(p + 0xFFFF_FFFF_FFFF_FFFF * p == 0x1_0000_0000_0000_0000 * p) by {
            lemma_mul_is_distributive_add(p as int, 1, 0xFFFF_FFFF_FFFF_FFFF);
        }
    }
}

/// Splitting a small `u128` at the limb radix is exact, and the high part
/// is at most one.
proof fn lemma_split_carry(t: u128)
    by (nonlinear_arith)
    requires
        t < 0x2_0000_0000_0000_0000,
    ensures
        (t % 0x1_0000_0000_0000_0000) + (t / 0x1_0000_0000_0000_0000) * 0x1_0000_0000_0000_0000
            == t,
        t / 0x1_0000_0000_0000_0000 <= 1,
        t % 0x1_0000_0000_0000_0000 < 0x1_0000_0000_0000_0000,
{
}

/// One carry-chain step, moved to its weighted position.
proof fn lemma_carry_step(p: nat, lo: nat, hi: nat, a: nat, b: nat, c: nat)
    by (nonlinear_arith)
    requires
        lo + hi * 0x1_0000_0000_0000_0000 == a + b + c,
    ensures
        lo * p + hi * (p * 0x1_0000_0000_0000_0000) == c * p + (a * p + b * p),
{
}

impl U512 {
    /// The mathematical value this integer stands for.
    pub closed spec fn as_nat(self) -> nat {
        limbs_val(self.limbs@)
    }

    /// Largest value a `U512` can hold, `2^512 - 1`.
    pub open spec fn spec_max() -> nat {
        (pow2(512) - 1) as nat
    }

    /// The value of a `U512` never exceeds `2^512 - 1`.
    pub proof fn lemma_value_in_range(self)
        ensures
            self.as_nat() < pow2(512),
    {
        lemma_limbs_val_bound(self.limbs@);
    }

    /// Embed a machine word.
    pub fn from_u64(v: u64) -> (r: U512)
        ensures
            r.as_nat() == v as nat,
    {
        let limbs: [u64; 8] = [v, 0, 0, 0, 0, 0, 0, 0];
        proof {
            lemma_val_low_limb(limbs@);
        }
        U512 { limbs }
    }

    /// The zero value.
    pub fn zero() -> (r: U512)
        ensures
            r.as_nat() == 0,
    {
        U512::from_u64(0)
    }

    /// The largest representable value, `2^512 - 1`.
    pub fn max_value() -> (r: U512)
        ensures
            r.as_nat() == U512::spec_max(),
    {
        let limbs: [u64; 8] = [0xFFFF_FFFF_FFFF_FFFFu64; 8];
        proof {
            lemma_val_all_ones(limbs@);
        }
        U512 { limbs }
    }

    /// Exact addition: `None` exactly when the sum does not fit in 512 bits.
    pub fn checked_add(&self, other: &U512) -> (r: Option<U512>)
        ensures
            match r {
                Some(s) => s.as_nat() == self.as_nat() + other.as_nat(),
                None => self.as_nat() + other.as_nat() >= pow2(512),
            },
    {
        let mut out: [u64; 8] = [0u64; 8];
        let mut carry: u64 = 0;
        let mut i: usize = 0;
        proof {
            lemma2_to64();
            assert(self.limbs@.subrange(0, 0) =~= Seq::<u64>::empty());
            assert(other.limbs@.subrange(0, 0) =~= Seq::<u64>::empty());
            assert(out@.subrange(0, 0) =~= Seq::<u64>::empty());
        }
        while i < 8
            invariant
                i <= 8,
                carry <= 1,
                pow2(64) == 0x1_0000_0000_0000_0000,
                limbs_val(out@.subrange(0, i as int)) + carry * pow2((64 * i) as nat) == limbs_val(
                    self.limbs@.subrange(0, i as int),
                ) + limbs_val(other.limbs@.subrange(0, i as int)),
            decreases 8 - i,
        {
            let a = self.limbs[i];
            let b = other.limbs[i];
            let t: u128 = a as u128 + b as u128 + carry as u128;
            let lo: u64 = (t % LIMB_RADIX) as u64;
            let hi: u64 = (t / LIMB_RADIX) as u64;
            proof {
                lemma_split_carry(t);
            }
            let ghost old_out = out@;
            let ghost old_carry = carry;
            out[i] = lo;
            carry = hi;
            proof {
                let gi = i as int;
                let p = pow2((64 * gi) as nat);
                assert(out@.subrange(0, gi) =~= old_out.subrange(0, gi));
                lemma_prefix_step(out@, gi);
                lemma_prefix_step(self.limbs@, gi);
                lemma_prefix_step(other.limbs@, gi);
                lemma_pow2_adds((64 * gi) as nat, 64);
                lemma_carry_step(p, lo as nat, hi as nat, a as nat, b as nat, old_carry as nat);
            }
            i += 1;
        }
        proof {
            assert(out@.subrange(0, 8) =~= out@);
            assert(self.limbs@.subrange(0, 8) =~= self.limbs@);
            assert(other.limbs@.subrange(0, 8) =~= other.limbs@);
        }
        if carry == 0 {
            Some(U512 { limbs: out })
        } else {
            proof {
                lemma_limbs_val_bound(out@);
            }
            None
        }
    }

    /// Exact comparison: at most.
    pub fn le(&self, other: &U512) -> (r: bool)
        ensures
            r == (self.as_nat() <= other.as_nat()),
    {
        let mut i: usize = 8;
        while i > 0
            invariant
                i <= 8,
                forall|j: int| i <= j < 8 ==> self.limbs@[j] == other.limbs@[j],
            decreases i,
        {
            i -= 1;
            if self.limbs[i] < other.limbs[i] {
                proof {
                    lemma_limbs_val_lt(self.limbs@, other.limbs@, i as int);
                }
                return true;
            }
            if self.limbs[i] > other.limbs[i] {
                proof {
                    lemma_limbs_val_lt(other.limbs@, self.limbs@, i as int);
                }
                return false;
            }
        }
        proof {
            assert(self.limbs@ =~= other.limbs@);
        }
        true
    }
}

impl PartialEq for U512 {
    /// Structural equality; by canonicity it coincides with value equality.
    fn eq(&self, other: &U512) -> (r: bool) {
        let mut i: usize = 8;
        while i > 0
            invariant
                i <= 8,
                forall|j: int| i <= j < 8 ==> self.limbs@[j] == other.limbs@[j],
            decreases i,
        {
            i -= 1;
            if self.limbs[i] < other.limbs[i] {
                proof {
                    lemma_limbs_val_lt(self.limbs@, other.limbs@, i as int);
                }
                return false;
            }
            if self.limbs[i] > other.limbs[i] {
                proof {
                    lemma_limbs_val_lt(other.limbs@, self.limbs@, i as int);
                }
                return false;
            }
        }
        proof {
            assert(self.limbs@ =~= other.limbs@);
        }
        true
    }
}

impl vstd::std_specs::cmp::PartialEqSpecImpl for U512 {
    open spec fn obeys_eq_spec() -> bool {
        true
    }

    open spec fn eq_spec(&self, other: &U512) -> bool {
        self.as_nat() == other.as_nat()
    }
}

} // verus!

