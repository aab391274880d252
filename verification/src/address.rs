//! Identities of accounts, owners and programs: 32 opaque bytes each.

use vstd::prelude::*;

verus! {

/// A 32-byte identity. The all-zero identity stands for "none registered".
#[derive(Clone, Copy, Debug, PartialEq, Eq, Hash)]
pub struct Address {
    pub bytes: [u8; 32],
}

impl View for Address {
    type V = Seq<u8>;

    open spec fn view(&self) -> Seq<u8> {
        self.bytes@
    }
}

impl Address {
    /// The identity made of the given bytes.
    pub fn new_from_array(bytes: [u8; 32]) -> (a: Address)
        ensures
            a.bytes == bytes,
    {
        Address { bytes }
    }

    /// The all-zero identity.
    pub open spec fn zero() -> Seq<u8> {
        Seq::new(32, |i: int| 0u8)
    }

    /// Whether this is the all-zero identity.
    pub open spec fn is_zero(&self) -> bool {
        self@ == Self::zero()
    }

    /// The all-zero identity.
    pub fn default() -> (a: Address)
        ensures
            a.is_zero(),
    {
        let a = Address { bytes: [0u8; 32] };
        assert(a@ =~= Self::zero());
        a
    }

    /// Whether this is the all-zero identity.
    pub fn is_default(&self) -> (r: bool)
        ensures
            r == self.is_zero(),
    {
        bytes32_is_zero(&self.bytes)
    }

    /// The bytes of the identity.
    pub fn to_bytes(&self) -> (bytes: [u8; 32])
        ensures
            bytes == self.bytes,
    {
        self.bytes
    }

    /// Whether two identities hold the same bytes.
    pub fn same(&self, other: &Address) -> (r: bool)
        ensures
            r == (self@ == other@),
            r == (*self == *other),
    {
        let r = bytes32_equal(&self.bytes, &other.bytes);
        assert(r ==> self.bytes =~= other.bytes);
        r
    }
}

/// Whether two 32-byte strings are equal.
pub fn bytes32_equal(a: &[u8; 32], b: &[u8; 32]) -> (r: bool)
    ensures
        r == (a@ == b@),
{
    let mut i: usize = 0;
    while i < 32
        invariant
            i <= 32,
            forall|j: int| 0 <= j < i ==> a[j] == b[j],
        decreases 32 - i,
    {
        if a[i] != b[i] {
            return false;
        }
        i += 1;
    }
    assert(a@ =~= b@);
    true
}

/// Whether a 32-byte string is all zero.
pub fn bytes32_is_zero(a: &[u8; 32]) -> (r: bool)
    ensures
        r == (a@ == Address::zero()),
{
    let mut i: usize = 0;
    while i < 32
        invariant
            i <= 32,
            forall|j: int| 0 <= j < i ==> a[j] == 0,
        decreases 32 - i,
    {
        if a[i] != 0 {
            assert(a@[i as int] != Address::zero()[i as int]);
            return false;
        }
        i += 1;
    }
    assert(a@ =~= Address::zero());
    true
}

} // verus!
