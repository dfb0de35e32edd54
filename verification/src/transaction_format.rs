//! How the extrinsics of a transaction pool are read, written and hashed.

use vstd::pervasive::arbitrary;
use vstd::prelude::*;

use crate::primitives::H256;

verus! {

/// An extrinsic that has an encoding.
///
/// An implementation says through `spec_decode` and `spec_encode` what its calls
/// return; both depend on their arguments alone.
pub trait ExtrinsicCodec: Sized {
    /// Why bytes do not begin with the encoding of an extrinsic.
    type FormatError;

    /// The extrinsic that `bytes` begin with, and how many of the bytes are
    /// read for it.
    open spec fn spec_decode(bytes: Seq<u8>) -> Result<(Self, usize), Self::FormatError> {
        arbitrary()
    }

    /// The encoding of an extrinsic.
    open spec fn spec_encode(self) -> Seq<u8> {
        arbitrary()
    }

    /// Decodes the extrinsic that `bytes` begin with, and says how many of the
    /// bytes it read.
    fn decode(bytes: &[u8]) -> (decoded: Result<(Self, usize), Self::FormatError>)
        ensures
            decoded == Self::spec_decode(bytes@),
    ;

    /// Encodes an extrinsic.
    fn encode(&self) -> (bytes: Vec<u8>)
        ensures
            bytes@ == self.spec_encode(),
    ;
}

/// What knows the extrinsics of a pool by their hashes.
///
/// An implementation says through `spec_hash_of` what its call returns, which
/// depends on its arguments alone.
pub trait TransactionHash<X> {
    /// The hash that an extrinsic is known by.
    open spec fn spec_hash_of(&self, xt: X) -> Seq<u8> {
        arbitrary()
    }

    /// The hash that an extrinsic is known by.
    fn hash_of(&self, xt: &X) -> (hash: H256)
        ensures
            hash.0@ == self.spec_hash_of(*xt),
    ;
}

/// The extrinsic that `bytes` begin with, whatever is read for it, or why they
/// begin with none.
pub open spec fn extrinsic_in<X: ExtrinsicCodec>(bytes: Seq<u8>) -> Result<X, X::FormatError> {
    match X::spec_decode(bytes) {
        Ok((xt, _)) => Ok(xt),
        Err(reason) => Err(reason),
    }
}

/// Whether decoding gives back this extrinsic from its encoding.
pub open spec fn reads_back<X: ExtrinsicCodec>(xt: X) -> bool {
    extrinsic_in::<X>(xt.spec_encode()) == Ok::<X, X::FormatError>(xt)
}

/// Whether decoding undoes encoding, for all extrinsics of the type.
pub open spec fn round_trips<X: ExtrinsicCodec>() -> bool {
    forall|xt: X| #[trigger] reads_back(xt)
}

/// Whether the extrinsic that `bytes` begin with depends on nothing but the
/// bytes that are read for it: with anything else after them, it is the same.
pub open spec fn read_alone<X: ExtrinsicCodec>(bytes: Seq<u8>) -> bool {
    X::spec_decode(bytes) matches Ok((xt, read)) ==> {
        &&& read <= bytes.len()
        &&& forall|rest: Seq<u8>|
            X::spec_decode(#[trigger] (bytes.take(read as int) + rest)) == Ok::<
                (X, usize),
                X::FormatError,
            >((xt, read))
    }
}

/// Whether what follows an extrinsic is never looked at.
pub open spec fn ignores_what_follows<X: ExtrinsicCodec>() -> bool {
    forall|bytes: Seq<u8>| #[trigger] read_alone::<X>(bytes)
}

} // verus!
