//! Addresses of locations in global state: accounts, hashes and
//! unforgeable references, plus the purse identifier built on the latter.

use vstd::prelude::*;

verus! {

/// Rights carried by an unforgeable reference: any combination of
/// read, write and add.
#[derive(Clone, Copy, Debug, PartialEq, Eq, Structural)]
pub struct AccessRights {
    pub read: bool,
    pub write: bool,
    pub add: bool,
}

/// Full rights: read, write and add.
pub open spec fn full_rights() -> AccessRights {
    AccessRights { read: true, write: true, add: true }
}

impl AccessRights {
    /// Full rights: read, write and add.
    pub fn read_add_write() -> (r: AccessRights)
        ensures
            r == full_rights(),
    {
        AccessRights { read: true, write: true, add: true }
    }
}

/// An unforgeable reference: a 32-byte identifier plus access rights.
/// Possessing it with sufficient rights is both necessary and sufficient
/// to reach the location it names.
#[derive(Clone, Copy, Debug)]
pub struct URef {
    pub addr: [u8; 32],
    pub rights: AccessRights,
}

impl URef {
    /// Build a reference from its identifier and rights.
    pub fn new(addr: [u8; 32], rights: AccessRights) -> (r: URef)
        ensures
            r.addr == addr,
            r.rights == rights,
    {
        URef { addr, rights }
    }
}

/// Address of a location in global state.
#[derive(Clone, Copy, Debug)]
pub enum Key {
    Account([u8; 32]),
    Hash([u8; 32]),
    URef(URef),
}

/// A value-holding location: wraps exactly one unforgeable reference.
#[derive(Clone, Copy, Debug)]
pub struct PurseId(pub URef);

impl PurseId {
    /// Restrict a reference to denote a purse.
    pub fn new(uref: URef) -> (r: PurseId)
        ensures
            r.value() == uref,
    {
        PurseId(uref)
    }

    /// The underlying reference.
    pub open spec fn spec_value(&self) -> URef {
        self.0
    }

    /// The underlying reference.
    #[verifier::when_used_as_spec(spec_value)]
    pub fn value(&self) -> (r: URef)
        ensures
            r == self.spec_value(),
    {
        self.0
    }

    /// The key of the location this purse denotes.
    pub open spec fn spec_key(&self) -> Key {
        Key::URef(self.0)
    }

    /// The key of the location this purse denotes.
    #[verifier::when_used_as_spec(spec_key)]
    pub fn key(&self) -> (r: Key)
        ensures
            r == self.spec_key(),
    {
        Key::URef(self.0)
    }
}

/// Equality of 32-byte identifiers.
pub fn bytes32_eq(a: &[u8; 32], b: &[u8; 32]) -> (r: bool)
    ensures
        r == (a == b),
{
    let mut i: usize = 0;
    while i < 32
        invariant
            i <= 32,
            forall|j: int| 0 <= j < i ==> a@[j] == b@[j],
        decreases 32 - i,
    {
        if a[i] != b[i] {
            proof {
                assert(a@ != b@);
                assert(a != b);
            }
            return false;
        }
        i += 1;
    }
    proof {
        assert(a =~= b);
    }
    true
}

/// Equality of references, identifier and rights both.
pub fn uref_eq(a: &URef, b: &URef) -> (r: bool)
    ensures
        r == (a == b),
{
    let same = bytes32_eq(&a.addr, &b.addr) && a.rights == b.rights;
    proof {
        if a.addr == b.addr && a.rights == b.rights {
            assert(*a == *b);
        }
    }
    same
}

/// Structural equality of keys.
pub fn key_eq(a: &Key, b: &Key) -> (r: bool)
    ensures
        r == (a == b),
{
    match (a, b) {
        (Key::Account(x), Key::Account(y)) => bytes32_eq(x, y),
        (Key::Hash(x), Key::Hash(y)) => bytes32_eq(x, y),
        (Key::URef(x), Key::URef(y)) => uref_eq(x, y),
        _ => false,
    }
}

} // verus!
