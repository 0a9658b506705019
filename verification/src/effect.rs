//! The effect model: a typed record of every key touched during one
//! execution — an access mark (`Op`) and a pending state mutation
//! (`Transform`) per key, combined associatively when a key is touched
//! again.

use vstd::prelude::*;
use vstd::arithmetic::power2::pow2;
use crate::error::Error;
use crate::key::{Key, key_eq};
use crate::value::U512;

verus! {

/// How a key was accessed during this execution.
#[derive(Clone, Copy, Debug, PartialEq, Eq, Structural)]
pub enum Op {
    Read,
    Write,
    Add,
    NoOp,
}

/// Coarsening of two access marks recorded for one key, in order:
/// `NoOp` is the unit, equal marks stay, every other mix coarsens to
/// `Write`.
pub open spec fn combine_ops(first: Op, second: Op) -> Op {
    match (first, second) {
        (x, Op::NoOp) => x,
        (Op::NoOp, y) => y,
        (Op::Read, Op::Read) => Op::Read,
        (Op::Add, Op::Add) => Op::Add,
        _ => Op::Write,
    }
}

/// Apply the coarsening of access marks.
pub fn combine_ops_exec(first: Op, second: Op) -> (r: Op)
    ensures
        r == combine_ops(first, second),
{
    match (first, second) {
        (x, Op::NoOp) => x,
        (Op::NoOp, y) => y,
        (Op::Read, Op::Read) => Op::Read,
        (Op::Add, Op::Add) => Op::Add,
        _ => Op::Write,
    }
}

/// A value stored at a location in global state.
#[derive(Clone, Copy, Debug, PartialEq)]
pub enum Value {
    Int32(i32),
    UInt512(U512),
}

/// Mathematical content of a stored value.
pub enum ValueV {
    Int32(int),
    UInt512(nat),
}

impl View for Value {
    type V = ValueV;

    open spec fn view(&self) -> ValueV {
        match *self {
            Value::Int32(x) => ValueV::Int32(x as int),
            Value::UInt512(x) => ValueV::UInt512(x.as_nat()),
        }
    }
}

/// The state mutation to apply to a key's value at commit time.
#[derive(Clone, Copy, Debug, PartialEq)]
pub enum Transform {
    Identity,
    Write(Value),
    AddInt32(i32),
    AddUInt512(U512),
    Failure(Error),
}

/// Mathematical content of a transform.
pub enum TransformV {
    Identity,
    Write(ValueV),
    AddInt32(int),
    AddUInt512(nat),
    Failure(Error),
}

impl View for Transform {
    type V = TransformV;

    open spec fn view(&self) -> TransformV {
        match *self {
            Transform::Identity => TransformV::Identity,
            Transform::Write(v) => TransformV::Write(v@),
            Transform::AddInt32(d) => TransformV::AddInt32(d as int),
            Transform::AddUInt512(d) => TransformV::AddUInt512(d.as_nat()),
            Transform::Failure(e) => TransformV::Failure(e),
        }
    }
}

/// Associative combination of two transforms recorded for one key, in
/// application order. `Identity` is the unit; a later `Write` replaces
/// what stands before it; numeric deltas of one width add exactly, and
/// a sum that leaves the value's range is the `Overflow` failure; every
/// incompatible pair is the `TypeMismatch` failure; a failure, once
/// recorded, is never dropped.
pub open spec fn combine_transforms_v(first: TransformV, second: TransformV) -> TransformV {
    match (first, second) {
        (t, TransformV::Identity) => t,
        (TransformV::Identity, t) => t,
        (TransformV::Failure(e), _) => TransformV::Failure(e),
        (_, TransformV::Failure(e)) => TransformV::Failure(e),
        (_, TransformV::Write(v)) => TransformV::Write(v),
        (TransformV::AddInt32(i), TransformV::AddInt32(j)) => if i32::MIN <= i + j <= i32::MAX {
            TransformV::AddInt32(i + j)
        } else {
            TransformV::Failure(Error::Overflow)
        },
        (TransformV::AddUInt512(i), TransformV::AddUInt512(j)) => if i + j < pow2(512) {
            TransformV::AddUInt512((i + j) as nat)
        } else {
            TransformV::Failure(Error::Overflow)
        },
        (TransformV::Write(ValueV::Int32(x)), TransformV::AddInt32(j)) => if i32::MIN <= x + j
            <= i32::MAX {
            TransformV::Write(ValueV::Int32(x + j))
        } else {
            TransformV::Failure(Error::Overflow)
        },
        (TransformV::Write(ValueV::UInt512(x)), TransformV::AddUInt512(j)) => if x + j < pow2(
            512,
        ) {
            TransformV::Write(ValueV::UInt512((x + j) as nat))
        } else {
            TransformV::Failure(Error::Overflow)
        },
        _ => TransformV::Failure(Error::TypeMismatch),
    }
}

/// Apply the associative combination of transforms.
pub fn combine_transforms(first: Transform, second: Transform) -> (r: Transform)
    ensures
        r@ == combine_transforms_v(first@, second@),
{
    match (first, second) {
        (t, Transform::Identity) => t,
        (Transform::Identity, t) => t,
        (Transform::Failure(e), _) => Transform::Failure(e),
        (_, Transform::Failure(e)) => Transform::Failure(e),
        (_, Transform::Write(v)) => Transform::Write(v),
        (Transform::AddInt32(i), Transform::AddInt32(j)) => match i.checked_add(j) {
            Some(s) => Transform::AddInt32(s),
            None => Transform::Failure(Error::Overflow),
        },
        (Transform::AddUInt512(i), Transform::AddUInt512(j)) => match i.checked_add(&j) {
            Some(s) => {
                proof {
                    s.lemma_value_in_range();
                }
                Transform::AddUInt512(s)
            },
            None => Transform::Failure(Error::Overflow),
        },
        (Transform::Write(Value::Int32(x)), Transform::AddInt32(j)) => match x.checked_add(j) {
            Some(s) => Transform::Write(Value::Int32(s)),
            None => Transform::Failure(Error::Overflow),
        },
        (Transform::Write(Value::UInt512(x)), Transform::AddUInt512(j)) => match x.checked_add(
            &j,
        ) {
            Some(s) => {
                proof {
                    s.lemma_value_in_range();
                }
                Transform::Write(Value::UInt512(s))
            },
            None => Transform::Failure(Error::Overflow),
        },
        _ => Transform::Failure(Error::TypeMismatch),
    }
}

/// What a transform makes of the value now at its key: `Identity` keeps
/// it, `Write` replaces it, a delta adds to a present value of its own
/// width, and every other pairing is the error that commit would report.
pub open spec fn apply_transform_v(t: TransformV, base: Option<ValueV>) -> Result<
    Option<ValueV>,
    Error,
> {
    match t {
        TransformV::Identity => Ok(base),
        TransformV::Write(v) => Ok(Some(v)),
        TransformV::AddInt32(d) => match base {
            Some(ValueV::Int32(x)) => if i32::MIN <= x + d <= i32::MAX {
                Ok(Some(ValueV::Int32(x + d)))
            } else {
                Err(Error::Overflow)
            },
            Some(_) => Err(Error::TypeMismatch),
            None => Err(Error::KeyNotFound),
        },
        TransformV::AddUInt512(d) => match base {
            Some(ValueV::UInt512(x)) => if x + d < pow2(512) {
                Ok(Some(ValueV::UInt512((x + d) as nat)))
            } else {
                Err(Error::Overflow)
            },
            Some(_) => Err(Error::TypeMismatch),
            None => Err(Error::KeyNotFound),
        },
        TransformV::Failure(e) => Err(e),
    }
}

/// View of an optional stored value.
pub open spec fn opt_value_view(o: Option<Value>) -> Option<ValueV> {
    match o {
        Some(v) => Some(v@),
        None => None,
    }
}

/// Apply a transform to the value now at a key, exactly as commit would.
pub fn apply_transform(t: Transform, base: Option<Value>) -> (r: Result<Option<Value>, Error>)
    ensures
        (match apply_transform_v(t@, opt_value_view(base)) {
            Ok(ov) => r matches Ok(rv) && opt_value_view(rv) == ov,
            Err(e) => r == Err::<Option<Value>, Error>(e),
        }),
{
    match t {
        Transform::Identity => Ok(base),
        Transform::Write(v) => Ok(Some(v)),
        Transform::AddInt32(d) => match base {
            Some(Value::Int32(x)) => match x.checked_add(d) {
                Some(s) => Ok(Some(Value::Int32(s))),
                None => Err(Error::Overflow),
            },
            Some(Value::UInt512(_)) => Err(Error::TypeMismatch),
            None => Err(Error::KeyNotFound),
        },
        Transform::AddUInt512(d) => match base {
            Some(Value::UInt512(x)) => match x.checked_add(&d) {
                Some(s) => {
                    proof {
                        s.lemma_value_in_range();
                    }
                    Ok(Some(Value::UInt512(s)))
                },
                None => Err(Error::Overflow),
            },
            Some(Value::Int32(_)) => Err(Error::TypeMismatch),
            None => Err(Error::KeyNotFound),
        },
        Transform::Failure(e) => Err(e),
    }
}

/// First pair bound to `k`, if any.
pub open spec fn find_pair<V>(s: Seq<(Key, V)>, k: Key) -> Option<V>
    decreases s.len(),
{
    if s.len() == 0 {
        None
    } else if s[0].0 == k {
        Some(s[0].1)
    } else {
        find_pair(s.drop_first(), k)
    }
}

/// No key is bound twice.
pub open spec fn unique_keys<V>(s: Seq<(Key, V)>) -> bool {
    forall|i: int, j: int| 0 <= i < j < s.len() ==> s[i].0 != s[j].0
}

/// A pair whose key stands nowhere earlier is what `find_pair` returns.
pub(crate) proof fn lemma_find_at<V>(s: Seq<(Key, V)>, k: Key, i: int)
    requires
        0 <= i < s.len(),
        s[i].0 == k,
        forall|j: int| 0 <= j < i ==> s[j].0 != k,
    ensures
        find_pair(s, k) == Some(s[i].1),
    decreases i,
{
    if i > 0 {
        lemma_find_at(s.drop_first(), k, i - 1);
    }
}

/// A key that stands nowhere is not found.
pub(crate) proof fn lemma_find_absent<V>(s: Seq<(Key, V)>, k: Key)
    requires
        forall|j: int| 0 <= j < s.len() ==> s[j].0 != k,
    ensures
        find_pair(s, k) is None,
    decreases s.len(),
{
    if s.len() > 0 {
        lemma_find_absent(s.drop_first(), k);
    }
}

/// Replacing the pair at `i` without changing its key leaves every other
/// key's binding as it was.
proof fn lemma_find_update<V>(s: Seq<(Key, V)>, i: int, e: (Key, V), k2: Key)
    requires
        0 <= i < s.len(),
        s[i].0 == e.0,
        k2 != e.0,
    ensures
        find_pair(s.update(i, e), k2) == find_pair(s, k2),
    decreases s.len(),
{
    let s2 = s.update(i, e);
    if i == 0 {
        assert(s2.drop_first() =~= s.drop_first());
    } else {
        assert(s2[0] == s[0]);
        if s[0].0 != k2 {
            assert(s2.drop_first() =~= s.drop_first().update(i - 1, e));
            lemma_find_update(s.drop_first(), i - 1, e, k2);
        }
    }
}

/// Appending a pair binds its key and leaves every other key's binding
/// as it was.
proof fn lemma_find_push<V>(s: Seq<(Key, V)>, e: (Key, V), k2: Key)
    ensures
        find_pair(s.push(e), k2) == if find_pair(s, k2) is Some {
            find_pair(s, k2)
        } else if e.0 == k2 {
            Some(e.1)
        } else {
            None
        },
    decreases s.len(),
{
    let s2 = s.push(e);
    if s.len() == 0 {
        assert(s2[0] == e);
        if e.0 == k2 {
            assert(find_pair(s2, k2) == Some(e.1));
        } else {
            assert(s2.drop_first() =~= Seq::<(Key, V)>::empty());
            assert(find_pair(s2.drop_first(), k2) is None);
            assert(find_pair(s2, k2) is None);
        }
        assert(find_pair(s, k2) is None);
    } else {
        assert(s2[0] == s[0]);
        lemma_find_push(s.drop_first(), e, k2);
        assert(s2.drop_first() =~= s.drop_first().push(e));
        if s[0].0 == k2 {
            assert(find_pair(s2, k2) == Some(s[0].1));
            assert(find_pair(s, k2) == Some(s[0].1));
        } else {
            assert(find_pair(s2, k2) == find_pair(s2.drop_first(), k2));
            assert(find_pair(s, k2) == find_pair(s.drop_first(), k2));
        }
    }
}

/// The record of every key touched during one execution: an access mark
/// and a pending transform per key. Grown incrementally; never shared
/// across deploys.
#[derive(Debug)]
pub struct Effect {
    pub ops: Vec<(Key, Op)>,
    pub transforms: Vec<(Key, Transform)>,
}

impl Effect {
    /// The access mark recorded for `k`, if any.
    pub open spec fn op_at(self, k: Key) -> Option<Op> {
        find_pair(self.ops@, k)
    }

    /// The transform recorded for `k`, if any.
    pub open spec fn transform_at(self, k: Key) -> Option<Transform> {
        find_pair(self.transforms@, k)
    }

    /// Each key is recorded at most once per mapping.
    pub open spec fn wf(self) -> bool {
        unique_keys(self.ops@) && unique_keys(self.transforms@)
    }

    /// No key recorded at all.
    pub open spec fn is_empty(self) -> bool {
        self.ops@.len() == 0 && self.transforms@.len() == 0
    }

    /// The transform recorded for a key.
    pub fn get_transform(&self, k: &Key) -> (r: Option<Transform>)
        ensures
            r == self.transform_at(*k),
    {
        let mut i: usize = 0;
        while i < self.transforms.len()
            invariant
                i <= self.transforms@.len(),
                forall|j: int| 0 <= j < i ==> self.transforms@[j].0 != *k,
            decreases self.transforms@.len() - i,
        {
            let (key_i, t) = self.transforms[i];
            if key_eq(&key_i, k) {
                proof {
                    lemma_find_at(self.transforms@, *k, i as int);
                }
                return Some(t);
            }
            i += 1;
        }
        proof {
            lemma_find_absent(self.transforms@, *k);
        }
        None
    }

    /// The access mark recorded for a key.
    pub fn get_op(&self, k: &Key) -> (r: Option<Op>)
        ensures
            r == self.op_at(*k),
    {
        let mut i: usize = 0;
        while i < self.ops.len()
            invariant
                i <= self.ops@.len(),
                forall|j: int| 0 <= j < i ==> self.ops@[j].0 != *k,
            decreases self.ops@.len() - i,
        {
            let (key_i, op) = self.ops[i];
            if key_eq(&key_i, k) {
                proof {
                    lemma_find_at(self.ops@, *k, i as int);
                }
                return Some(op);
            }
            i += 1;
        }
        proof {
            lemma_find_absent(self.ops@, *k);
        }
        None
    }

    /// An empty record.
    pub fn new() -> (r: Effect)
        ensures
            r.wf(),
            r.is_empty(),
            forall|k: Key| r.op_at(k) is None,
            forall|k: Key| r.transform_at(k) is None,
    {
        Effect { ops: Vec::new(), transforms: Vec::new() }
    }

    /// Record an access mark for `key`, coarsening whatever mark stands
    /// there already; marks for other keys and all transforms stay.
    pub fn insert_op(&mut self, key: Key, op: Op)
        requires
            old(self).wf(),
        ensures
            final(self).wf(),
            final(self).transforms@ == old(self).transforms@,
            final(self).op_at(key) == Some(
                combine_ops(
                    match old(self).op_at(key) {
                        Some(prev) => prev,
                        None => Op::NoOp,
                    },
                    op,
                ),
            ),
            forall|k2: Key| k2 != key ==> final(self).op_at(k2) == old(self).op_at(k2),
            final(self).ops@.len() == if old(self).op_at(key) is Some {
                old(self).ops@.len()
            } else {
                old(self).ops@.len() + 1
            },
    {
        let ghost s0 = self.ops@;
        let mut i: usize = 0;
        while i < self.ops.len()
            invariant
                old(self).wf(),
                self == old(self),
                s0 == old(self).ops@,
                i <= s0.len(),
                forall|j: int| 0 <= j < i ==> s0[j].0 != key,
            decreases s0.len() - i,
        {
            let (k, prev) = self.ops[i];
            if key_eq(&k, &key) {
                let c = combine_ops_exec(prev, op);
                proof {
                    lemma_find_at(s0, key, i as int);
                }
                self.ops[i] = (key, c);
                proof {
                    lemma_find_at(self.ops@, key, i as int);
                    assert forall|k2: Key| k2 != key implies find_pair(self.ops@, k2) == find_pair(
                        s0,
                        k2,
                    ) by {
                        lemma_find_update(s0, i as int, (key, c), k2);
                    }
                }
                return ;
            }
            i += 1;
        }
        proof {
            lemma_find_absent(s0, key);
        }
        self.ops.push((key, op));
        proof {
            assert(self.ops@ == s0.push((key, op)));
            lemma_find_push(s0, (key, op), key);
            assert forall|k2: Key| k2 != key implies find_pair(self.ops@, k2) == find_pair(
                s0,
                k2,
            ) by {
                lemma_find_push(s0, (key, op), k2);
            }
            assert(combine_ops(Op::NoOp, op) == op);
        }
    }

    /// Record a transform for `key`, combining it after whatever stands
    /// there already; transforms for other keys and all marks stay.
    pub fn insert_transform(&mut self, key: Key, t: Transform)
        requires
            old(self).wf(),
        ensures
            final(self).wf(),
            final(self).ops@ == old(self).ops@,
            final(self).transform_at(key) matches Some(c) && c@ == combine_transforms_v(
                match old(self).transform_at(key) {
                    Some(prev) => prev@,
                    None => TransformV::Identity,
                },
                t@,
            ),
            forall|k2: Key| k2 != key ==> final(self).transform_at(k2) == old(self).transform_at(
                k2,
            ),
            final(self).transforms@.len() == if old(self).transform_at(key) is Some {
                old(self).transforms@.len()
            } else {
                old(self).transforms@.len() + 1
            },
    {
        let ghost s0 = self.transforms@;
        let mut i: usize = 0;
        while i < self.transforms.len()
            invariant
                old(self).wf(),
                self == old(self),
                s0 == old(self).transforms@,
                i <= s0.len(),
                forall|j: int| 0 <= j < i ==> s0[j].0 != key,
            decreases s0.len() - i,
        {
            let (k, prev) = self.transforms[i];
            if key_eq(&k, &key) {
                let c = combine_transforms(prev, t);
                proof {
                    lemma_find_at(s0, key, i as int);
                }
                self.transforms[i] = (key, c);
                proof {
                    lemma_find_at(self.transforms@, key, i as int);
                    assert forall|k2: Key| k2 != key implies find_pair(
                        self.transforms@,
                        k2,
                    ) == find_pair(s0, k2) by {
                        lemma_find_update(s0, i as int, (key, c), k2);
                    }
                }
                return ;
            }
            i += 1;
        }
        proof {
            lemma_find_absent(s0, key);
        }
        self.transforms.push((key, t));
        proof {
            assert(self.transforms@ == s0.push((key, t)));
            lemma_find_push(s0, (key, t), key);
            assert forall|k2: Key| k2 != key implies find_pair(self.transforms@, k2) == find_pair(
                s0,
                k2,
            ) by {
                lemma_find_push(s0, (key, t), k2);
            }
        }
    }
}

impl Default for Effect {
    /// An empty record.
    fn default() -> (r: Effect)
        ensures
            r.wf(),
            r.is_empty(),
            forall|k: Key| r.op_at(k) is None,
            forall|k: Key| r.transform_at(k) is None,
    {
        Effect::new()
    }
}

} // verus!
