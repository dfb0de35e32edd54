//! The hash function of the chain.

use vstd::prelude::*;

use crate::primitives::H256;

verus! {

/// The unkeyed BLAKE2b digest of `data`, 32 bytes long.
pub uninterp spec fn blake2b_32(data: Seq<u8>) -> Seq<u8>;

/// Calls `blake2_rfc::blake2b::blake2b` with a digest length of 32 and no key.
/// Trusted: the digest depends on the data alone.
#[verifier::external_body]
fn blake2b(data: &[u8]) -> (digest: [u8; 32])
    ensures
        digest@ == blake2b_32(data@),
{
    let mut digest = [0u8; 32];
    digest.copy_from_slice(blake2_rfc::blake2b::blake2b(32, &[], data).as_bytes());
    digest
}

/// Hashes `data`.
pub fn blake2_256(data: &[u8]) -> (hash: H256)
    ensures
        hash.0@ == blake2b_32(data@),
{
    H256(blake2b(data))
}

} // verus!
