//! The extrinsics of the transfer chain and their SCALE encoding.

use parity_scale_codec::{Decode, Encode};
use vstd::bytes::{
    lemma_auto_spec_u64_to_from_le_bytes, spec_u64_from_le_bytes, spec_u64_to_le_bytes,
};
use vstd::pervasive::arbitrary;
use vstd::prelude::*;
use vstd::slice::slice_subrange;

use crate::hashing::{blake2_256, blake2b_32};
use crate::primitives::H256;
use crate::transaction_format::{
    ignores_what_follows, read_alone, reads_back, round_trips, ExtrinsicCodec,
};

verus! {

/// An account: the public key that its transfers are signed with.
pub type AccountId = [u8; 32];

/// The number of transfers that an account made before.
pub type Index = u64;

/// A signature over the encoding of a transfer.
pub type Signature = [u8; 64];

/// The byte that an encoded `Extrinsic::Transfer` begins with; all others are
/// left to the extrinsics that are no transfers.
pub const TRANSFER_VARIANT: u8 = 1;

/// The length of an encoded `Extrinsic::Transfer`.
pub const SIGNED_TRANSFER_LEN: usize = 145;

/// A transfer of an amount from one account to another.
#[derive(Clone, Copy, Debug, PartialEq, Eq)]
pub struct Transfer {
    pub from: AccountId,
    pub to: AccountId,
    pub amount: u64,
    pub nonce: Index,
}

/// A transaction of a chain whose extrinsics are transfers and, besides them,
/// those of type `O`.
#[derive(Clone, Copy, Debug, PartialEq, Eq)]
pub enum Extrinsic<O> {
    /// A transfer and its sender's signature.
    Transfer(Transfer, Signature),
    /// Anything else.
    Other(O),
}

/// Why bytes do not begin with the encoding of an extrinsic.
#[derive(Clone, Copy, Debug, PartialEq, Eq)]
pub enum FormatError<D> {
    /// The bytes end too early.
    NotEnoughData,
    /// The bytes do not begin like a transfer, nor with another extrinsic.
    Other(D),
}

/// The error that the SCALE decoders return.
#[verifier::external_type_specification]
#[verifier::external_body]
pub struct ExCodecError(parity_scale_codec::Error);

/// Calls `parity_scale_codec::Encode::encode` on the tuple of its arguments.
/// Trusted: a tuple is encoded field by field, a byte array as its bytes, a
/// `u64` as its eight bytes, the least significant one first.
#[verifier::external_body]
fn scale_encode(from: &[u8; 32], to: &[u8; 32], amount: u64, nonce: u64) -> (bytes: Vec<u8>)
    ensures
        bytes@ == from@ + to@ + spec_u64_to_le_bytes(amount) + spec_u64_to_le_bytes(nonce),
{
    (*from, *to, amount, nonce).encode()
}

/// Calls `parity_scale_codec::Decode::decode` for a tuple of two accounts, two
/// numbers and a signature. Trusted: decoding reads the fields off the front of
/// the bytes, in the form that encoding gives them, leaves what follows them
/// alone, and fails exactly if the bytes end before the last field does.
#[verifier::external_body]
fn scale_decode(bytes: &[u8]) -> (decoded: Result<
    ([u8; 32], [u8; 32], u64, u64, [u8; 64]),
    parity_scale_codec::Error,
>)
    ensures
        decoded is Ok <==> bytes@.len() >= 144,
        decoded matches Ok((from, to, amount, nonce, signature)) ==> {
            &&& from@ == bytes@.subrange(0, 32)
            &&& to@ == bytes@.subrange(32, 64)
            &&& amount == spec_u64_from_le_bytes(bytes@.subrange(64, 72))
            &&& nonce == spec_u64_from_le_bytes(bytes@.subrange(72, 80))
            &&& signature@ == bytes@.subrange(80, 144)
        },
{
    Decode::decode(&mut &bytes[..])
}

impl Transfer {
    /// The encoding of a transfer: its fields in order.
    pub open spec fn encoding(self) -> Seq<u8> {
        self.from@ + self.to@ + spec_u64_to_le_bytes(self.amount) + spec_u64_to_le_bytes(
            self.nonce,
        )
    }

    /// Encodes a transfer.
    pub fn encode(&self) -> (bytes: Vec<u8>)
        ensures
            bytes@ == self.encoding(),
    {
        scale_encode(&self.from, &self.to, self.amount, self.nonce)
    }
}

/// The signed transfer that `bytes` are the encoding of.
pub open spec fn signed_transfer<O>(bytes: Seq<u8>) -> Extrinsic<O> {
    let (transfer, signature) = choose|transfer: Transfer, signature: Signature|
        #[trigger] signed_encoding(transfer, signature) == bytes;
    Extrinsic::Transfer(transfer, signature)
}

/// The encoding of a signed transfer: its variant, its transfer, its signature.
pub open spec fn signed_encoding(transfer: Transfer, signature: Signature) -> Seq<u8> {
    seq![TRANSFER_VARIANT] + transfer.encoding() + signature@
}

impl<O> Extrinsic<O> {
    /// The transfer of an extrinsic.
    pub open spec fn spec_transfer(self) -> Transfer
        recommends
            self is Transfer,
    {
        match self {
            Extrinsic::Transfer(transfer, _) => transfer,
            Extrinsic::Other(_) => arbitrary(),
        }
    }

    /// The transfer of an extrinsic that is one.
    pub fn transfer(&self) -> (transfer: &Transfer)
        requires
            *self is Transfer,
        ensures
            *transfer == self.spec_transfer(),
    {
        match self {
            Extrinsic::Transfer(transfer, _) => transfer,
            Extrinsic::Other(_) => vstd::pervasive::unreached(),
        }
    }
}

impl<O: ExtrinsicCodec> Extrinsic<O> {
    /// The hash that an extrinsic is known by.
    pub open spec fn spec_hash(self) -> Seq<u8> {
        blake2b_32(self.spec_encode())
    }

    /// Hashes an extrinsic.
    pub fn hash(&self) -> (hash: H256)
        ensures
            hash.0@ == self.spec_hash(),
    {
        blake2_256(self.encode().as_slice())
    }
}

/// A transfer is told by its first byte; whatever begins otherwise is left to
/// the other extrinsics.
impl<O: ExtrinsicCodec> ExtrinsicCodec for Extrinsic<O> {
    type FormatError = FormatError<O::FormatError>;

    open spec fn spec_decode(bytes: Seq<u8>) -> Result<
        (Extrinsic<O>, usize),
        FormatError<O::FormatError>,
    > {
        if bytes.len() == 0 {
            Err(FormatError::NotEnoughData)
        } else if bytes[0] != TRANSFER_VARIANT {
            match O::spec_decode(bytes) {
                Ok((other, read)) => Ok((Extrinsic::Other(other), read)),
                Err(reason) => Err(FormatError::Other(reason)),
            }
        } else if bytes.len() < SIGNED_TRANSFER_LEN {
            Err(FormatError::NotEnoughData)
        } else {
            Ok((signed_transfer(bytes.take(SIGNED_TRANSFER_LEN as int)), SIGNED_TRANSFER_LEN))
        }
    }

    open spec fn spec_encode(self) -> Seq<u8> {
        match self {
            Extrinsic::Transfer(transfer, signature) => signed_encoding(transfer, signature),
            Extrinsic::Other(other) => other.spec_encode(),
        }
    }

    fn decode(bytes: &[u8]) -> (decoded: Result<
        (Extrinsic<O>, usize),
        FormatError<O::FormatError>,
    >)
        ensures
            bytes@.len() >= 145 && bytes@[0] == 1 ==> {
                &&& decoded matches Ok((Extrinsic::Transfer(transfer, signature), read))
                &&& read == 145
                &&& transfer.from@ == bytes@.subrange(1, 33)
                &&& transfer.to@ == bytes@.subrange(33, 65)
                &&& spec_u64_to_le_bytes(transfer.amount) == bytes@.subrange(65, 73)
                &&& spec_u64_to_le_bytes(transfer.nonce) == bytes@.subrange(73, 81)
                &&& signature@ == bytes@.subrange(81, 145)
            },
    {
        if bytes.len() == 0 {
            return Err(FormatError::NotEnoughData);
        }
        if bytes[0] != TRANSFER_VARIANT {
            return match O::decode(bytes) {
                Ok((other, read)) => Ok((Extrinsic::Other(other), read)),
                Err(reason) => Err(FormatError::Other(reason)),
            };
        }
        let fields = slice_subrange(bytes, 1, bytes.len());
        match scale_decode(fields) {
            Err(_) => Err(FormatError::NotEnoughData),
            Ok((from, to, amount, nonce, signature)) => {
                let transfer = Transfer { from, to, amount, nonce };
                proof {
                    lemma_auto_spec_u64_to_from_le_bytes();
                    let whole = bytes@.take(SIGNED_TRANSFER_LEN as int);
                    assert(spec_u64_to_le_bytes(amount) == whole.subrange(65, 73)) by {
                        assert(fields@.subrange(64, 72) =~= whole.subrange(65, 73));
                    }
                    assert(spec_u64_to_le_bytes(nonce) == whole.subrange(73, 81)) by {
                        assert(fields@.subrange(72, 80) =~= whole.subrange(73, 81));
                    }
                    assert(whole.subrange(65, 73) =~= bytes@.subrange(65, 73));
                    assert(whole.subrange(73, 81) =~= bytes@.subrange(73, 81));
                    assert(fields@.subrange(0, 32) =~= bytes@.subrange(1, 33));
                    assert(fields@.subrange(32, 64) =~= bytes@.subrange(33, 65));
                    assert(fields@.subrange(80, 144) =~= bytes@.subrange(81, 145));
                    assert(signed_encoding(transfer, signature) =~= whole);
                    law_signed_transfer_is_the_encoded_one::<O>(transfer, signature);
                }
                Ok((Extrinsic::Transfer(transfer, signature), SIGNED_TRANSFER_LEN))
            },
        }
    }

    fn encode(&self) -> (bytes: Vec<u8>) {
        match self {
            Extrinsic::Transfer(transfer, signature) => {
                let mut bytes: Vec<u8> = vec![TRANSFER_VARIANT];
                let mut encoded = transfer.encode();
                bytes.append(&mut encoded);
                bytes.extend_from_slice(signature);
                assert(bytes@ =~= signed_encoding(*transfer, *signature));
                bytes
            },
            Extrinsic::Other(other) => other.encode(),
        }
    }
}

/// Every transfer has the same length when it is encoded.
pub proof fn law_transfer_encoding_length(transfer: Transfer)
    ensures
        transfer.encoding().len() == 80,
{
    lemma_auto_spec_u64_to_from_le_bytes();
}

/// Every signed transfer has the same length when it is encoded, and begins
/// with the byte of transfers.
pub proof fn law_signed_encoding_length(transfer: Transfer, signature: Signature)
    ensures
        signed_encoding(transfer, signature).len() == SIGNED_TRANSFER_LEN,
        signed_encoding(transfer, signature)[0] == TRANSFER_VARIANT,
{
    lemma_auto_spec_u64_to_from_le_bytes();
}

/// Different signed transfers have different encodings.
pub proof fn law_signed_encoding_is_injective(
    a: Transfer,
    s: Signature,
    b: Transfer,
    t: Signature,
)
    requires
        signed_encoding(a, s) == signed_encoding(b, t),
    ensures
        a == b,
        s == t,
{
    lemma_auto_spec_u64_to_from_le_bytes();
    let bytes = signed_encoding(a, s);
    assert(a.from@ =~= bytes.subrange(1, 33));
    assert(b.from@ =~= bytes.subrange(1, 33));
    assert(a.to@ =~= bytes.subrange(33, 65));
    assert(b.to@ =~= bytes.subrange(33, 65));
    assert(spec_u64_to_le_bytes(a.amount) =~= bytes.subrange(65, 73));
    assert(spec_u64_to_le_bytes(b.amount) =~= bytes.subrange(65, 73));
    assert(spec_u64_to_le_bytes(a.nonce) =~= bytes.subrange(73, 81));
    assert(spec_u64_to_le_bytes(b.nonce) =~= bytes.subrange(73, 81));
    assert(s@ =~= bytes.subrange(81, 145));
    assert(t@ =~= bytes.subrange(81, 145));
    assert(a.from =~= b.from);
    assert(a.to =~= b.to);
    assert(s =~= t);
}

/// The signed transfer that an encoding is read as is the one that was encoded.
pub proof fn law_signed_transfer_is_the_encoded_one<O>(transfer: Transfer, signature: Signature)
    ensures
        signed_transfer::<O>(signed_encoding(transfer, signature)) == Extrinsic::<O>::Transfer(
            transfer,
            signature,
        ),
{
    let bytes = signed_encoding(transfer, signature);
    let (other, other_signature) = choose|other: Transfer, other_signature: Signature|
        #[trigger] signed_encoding(other, other_signature) == bytes;
    law_signed_encoding_is_injective(transfer, signature, other, other_signature);
}

/// A signed transfer is read back from its encoding, whatever follows it and
/// whatever other extrinsics the chain has.
pub proof fn law_decoding_undoes_encoding<O: ExtrinsicCodec>(
    transfer: Transfer,
    signature: Signature,
    rest: Seq<u8>,
)
    ensures
        Extrinsic::<O>::spec_decode(signed_encoding(transfer, signature) + rest) == Ok::<
            (Extrinsic<O>, usize),
            FormatError<O::FormatError>,
        >((Extrinsic::Transfer(transfer, signature), SIGNED_TRANSFER_LEN)),
{
    let bytes = signed_encoding(transfer, signature) + rest;
    law_signed_encoding_length(transfer, signature);
    law_signed_transfer_is_the_encoded_one::<O>(transfer, signature);
    assert(bytes.take(SIGNED_TRANSFER_LEN as int) =~= signed_encoding(transfer, signature));
    assert(bytes[0] == signed_encoding(transfer, signature)[0]);
}

/// Whether the other extrinsics of a chain can be told from transfers: none is
/// encoded as nothing or begins like a transfer, and for each at least the byte
/// that it begins with is read.
pub open spec fn told_from_transfers<O: ExtrinsicCodec>() -> bool {
    &&& forall|other: O|
        {
            &&& (#[trigger] other.spec_encode()).len() > 0
            &&& other.spec_encode()[0] != TRANSFER_VARIANT
        }
    &&& forall|bytes: Seq<u8>|
        (#[trigger] O::spec_decode(bytes)) matches Ok((_, read)) ==> read > 0
}

/// Transfers are read back from their encodings on any chain, and another
/// extrinsic is if it is so on its own and does not begin like a transfer.
pub proof fn law_extrinsic_reads_back<O: ExtrinsicCodec>(xt: Extrinsic<O>)
    requires
        xt matches Extrinsic::Other(other) ==> {
            &&& reads_back(other)
            &&& other.spec_encode().len() > 0
            &&& other.spec_encode()[0] != TRANSFER_VARIANT
        },
    ensures
        reads_back(xt),
{
    if let Extrinsic::Transfer(transfer, signature) = xt {
        law_decoding_undoes_encoding::<O>(transfer, signature, seq![]);
        assert(xt.spec_encode() + seq![] =~= xt.spec_encode());
    }
}

/// What follows a transfer is not looked at on any chain, and what follows
/// another extrinsic is not if it is so on its own and the byte that the
/// extrinsic begins with is read.
pub proof fn law_extrinsic_read_alone<O: ExtrinsicCodec>(bytes: Seq<u8>)
    requires
        bytes.len() > 0 && bytes[0] != TRANSFER_VARIANT ==> {
            &&& read_alone::<O>(bytes)
            &&& O::spec_decode(bytes) matches Ok((_, read)) ==> read > 0
        },
    ensures
        read_alone::<Extrinsic<O>>(bytes),
{
    if let Ok((xt, read)) = Extrinsic::<O>::spec_decode(bytes) {
        assert forall|rest: Seq<u8>|
            Extrinsic::<O>::spec_decode(#[trigger] (bytes.take(read as int) + rest)) == Ok::<
                (Extrinsic<O>, usize),
                FormatError<O::FormatError>,
            >((xt, read)) by {
            let others = bytes.take(read as int) + rest;
            assert(others[0] == bytes[0]);
            assert(others.take(read as int) =~= bytes.take(read as int));
        }
    }
}

/// A chain reads back what it writes if it does so with its other extrinsics.
pub proof fn law_chain_round_trips<O: ExtrinsicCodec>()
    requires
        told_from_transfers::<O>(),
        round_trips::<O>(),
    ensures
        round_trips::<Extrinsic<O>>(),
{
    assert forall|xt: Extrinsic<O>| #[trigger] reads_back(xt) by {
        if let Extrinsic::Other(other) = xt {
            assert(reads_back(other));
        }
        law_extrinsic_reads_back(xt);
    }
}

/// A chain does not look at what follows an extrinsic if it does not do so with
/// its other extrinsics.
pub proof fn law_chain_ignores_what_follows<O: ExtrinsicCodec>()
    requires
        told_from_transfers::<O>(),
        ignores_what_follows::<O>(),
    ensures
        ignores_what_follows::<Extrinsic<O>>(),
{
    assert forall|bytes: Seq<u8>| #[trigger] read_alone::<Extrinsic<O>>(bytes) by {
        assert(read_alone::<O>(bytes));
        law_extrinsic_read_alone::<O>(bytes);
    }
}

/// A transfer is encoded as its sender, its receiver, its amount and its nonce,
/// one after the other, and nothing else.
pub proof fn law_transfer_encoding_layout(transfer: Transfer)
    ensures
        transfer.encoding().len() == 80,
        transfer.encoding().subrange(0, 32) == transfer.from@,
        transfer.encoding().subrange(32, 64) == transfer.to@,
        transfer.encoding().subrange(64, 72) == spec_u64_to_le_bytes(transfer.amount),
        transfer.encoding().subrange(72, 80) == spec_u64_to_le_bytes(transfer.nonce),
        transfer.encoding() == transfer.from@ + transfer.to@ + spec_u64_to_le_bytes(
            transfer.amount,
        ) + spec_u64_to_le_bytes(transfer.nonce),
{
    lemma_auto_spec_u64_to_from_le_bytes();
    assert(transfer.encoding().subrange(0, 32) =~= transfer.from@);
    assert(transfer.encoding().subrange(32, 64) =~= transfer.to@);
    assert(transfer.encoding().subrange(64, 72) =~= spec_u64_to_le_bytes(transfer.amount));
    assert(transfer.encoding().subrange(72, 80) =~= spec_u64_to_le_bytes(transfer.nonce));
}

/// An extrinsic is encoded as the byte one, its transfer and its signature if it
/// is a transfer, and else as it is encoded on its own; it is known by the
/// digest of its encoding.
pub proof fn law_extrinsic_encoding_layout<O: ExtrinsicCodec>(xt: Extrinsic<O>)
    ensures
        match xt {
            Extrinsic::Transfer(transfer, signature) => {
                &&& xt.spec_encode().len() == 145
                &&& xt.spec_encode() == seq![1u8] + (transfer.from@ + transfer.to@
                    + spec_u64_to_le_bytes(transfer.amount) + spec_u64_to_le_bytes(transfer.nonce))
                    + signature@
            },
            Extrinsic::Other(other) => xt.spec_encode() == other.spec_encode(),
        },
        xt.spec_hash() == blake2b_32(xt.spec_encode()),
{
    if let Extrinsic::Transfer(transfer, signature) = xt {
        law_signed_encoding_length(transfer, signature);
    }
}

/// Bytes are read by their first one: after the byte one, a transfer is read
/// field by field, if there is enough for it; what begins otherwise is read as
/// another extrinsic.
pub proof fn law_first_byte_decides<O: ExtrinsicCodec>(
    bytes: &[u8],
    decoded: Result<(Extrinsic<O>, usize), FormatError<O::FormatError>>,
)
    requires
        call_ensures(Extrinsic::<O>::decode, (bytes,), decoded),
    ensures
        bytes@.len() == 0 ==> decoded == Err::<
            (Extrinsic<O>, usize),
            FormatError<O::FormatError>,
        >(FormatError::NotEnoughData),
        0 < bytes@.len() < 145 && bytes@[0] == 1 ==> decoded == Err::<
            (Extrinsic<O>, usize),
            FormatError<O::FormatError>,
        >(FormatError::NotEnoughData),
        bytes@.len() >= 145 && bytes@[0] == 1 ==> {
            &&& decoded matches Ok((Extrinsic::Transfer(transfer, signature), read))
            &&& read == 145
            &&& transfer.from@ == bytes@.subrange(1, 33)
            &&& transfer.to@ == bytes@.subrange(33, 65)
            &&& spec_u64_to_le_bytes(transfer.amount) == bytes@.subrange(65, 73)
            &&& spec_u64_to_le_bytes(transfer.nonce) == bytes@.subrange(73, 81)
            &&& signature@ == bytes@.subrange(81, 145)
        },
        bytes@.len() > 0 && bytes@[0] != 1 ==> decoded == match O::spec_decode(bytes@) {
            Ok((other, read)) => Ok::<(Extrinsic<O>, usize), FormatError<O::FormatError>>(
                (Extrinsic::Other(other), read),
            ),
            Err(reason) => Err(FormatError::Other(reason)),
        },
{
}

} // verus!
