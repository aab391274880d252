//! Commitments. A hidden threshold is bound in advance by the SHA-256 digest of
//! its eight little-endian bytes, and proved later by revealing the value. The
//! engine stores the digest only: no record keeps the value before it is
//! revealed. Where the value is drawn from randomness, it is derived to be
//! committed to and dropped with the call.

use vstd::bytes::{spec_u64_to_le_bytes, u64_to_le_bytes};
use vstd::prelude::*;

verus! {

/// The SHA-256 digest of a byte string.
pub uninterp spec fn sha256(data: Seq<u8>) -> Seq<u8>;

/// `solana_program::hash::hash`, followed by `Hash::to_bytes`. The function
/// returns the SHA-256 digest of `data`; the contract gives that digest the
/// name `sha256` and claims nothing more of it.
#[verifier::external_body]
pub(crate) fn hash_bytes(data: &[u8]) -> (digest: [u8; 32])
    ensures
        digest@ == sha256(data@),
{
    solana_program::hash::hash(data).to_bytes()
}

/// The digest that commits to `cap`.
pub open spec fn cap_commitment(cap: u64) -> Seq<u8> {
    sha256(spec_u64_to_le_bytes(cap))
}

/// The digest that commits to `cap`.
pub fn commit_cap(cap: u64) -> (digest: [u8; 32])
    ensures
        digest@ == cap_commitment(cap),
{
    let preimage = u64_to_le_bytes(cap);
    hash_bytes(preimage.as_slice())
}

} // verus!
