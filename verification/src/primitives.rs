//! Hashes, block identifiers and raw bytes.

use vstd::prelude::*;

verus! {

/// A 256-bit hash.
#[derive(Clone, Copy, Debug, PartialEq, Eq)]
pub struct H256(pub [u8; 32]);

impl H256 {
    /// The hash of zeros that stands for no hash in particular.
    pub fn zero() -> (hash: Self)
        ensures
            hash.0@ == Seq::new(32, |i: int| 0u8),
    {
        let zeros = [0u8;32];
        assert(zeros@ =~= Seq::new(32, |i: int| 0u8));
        H256(zeros)
    }
}

/// A block, by its hash or by its number.
#[derive(Clone, Copy, Debug, PartialEq, Eq)]
pub enum BlockId {
    Hash(H256),
    Number(u64),
}

/// Bytes as they come and go over the wire.
#[derive(Clone, Debug, PartialEq, Eq)]
pub struct Bytes(pub Vec<u8>);

} // verus!
