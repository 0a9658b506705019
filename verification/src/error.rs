//! Errors an execution session can fail with.

use vstd::prelude::*;

verus! {

/// Failure of one execution session.
///
/// `GasLimit` is the exhaustion of the session budget; `Revert` carries a
/// contract-chosen numeric code; `KeyNotFound` is a failed lookup in the
/// session's view of global state; `TypeMismatch` is an incompatible pair
/// of transforms recorded for one key; `Overflow` is a numeric delta
/// whose exact sum leaves the value's range.
#[derive(Clone, Copy, Debug, PartialEq, Eq, Structural)]
pub enum Error {
    GasLimit,
    Revert(u32),
    KeyNotFound,
    TypeMismatch,
    Overflow,
}

} // verus!
