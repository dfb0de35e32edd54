//! A chain API for exercising a transaction pool: it accepts every transfer,
//! and lines the transfers up by their nonces.

use vstd::bytes::spec_u64_to_le_bytes;
use vstd::prelude::*;

use crate::extrinsic::{
    law_transfer_encoding_layout, law_transfer_encoding_length, Extrinsic, Index, Transfer,
};
use crate::hashing::blake2b_32;
use crate::keyring::{law_signing_context, sr25519_verifies, AccountKeyring, SIGNING_CONTEXT};
use crate::primitives::{BlockId, H256};
use crate::transaction_format::{ExtrinsicCodec, TransactionHash};

verus! {

/// The nonce that is up at block zero.
pub const FIRST_NONCE: u64 = 209;

/// What a pool needs to know of a valid transaction.
#[derive(Clone, Debug, PartialEq, Eq)]
pub struct ValidTransaction {
    /// Which transactions go first; higher is sooner.
    pub priority: u64,
    /// The tags that other transactions have to provide before this one.
    pub required: Vec<Vec<u8>>,
    /// The tags that this transaction provides.
    pub provided: Vec<Vec<u8>>,
    /// For how many blocks the validity holds.
    pub longevity: u64,
    /// Whether to pass the transaction on to peers.
    pub propagate: bool,
}

/// The contents of a list of tags.
pub open spec fn tags(list: Vec<Vec<u8>>) -> Seq<Seq<u8>> {
    list@.map_values(|tag: Vec<u8>| tag@)
}

/// The number of a block, or zero for a block that is known by its hash.
pub open spec fn spec_number_of(at: BlockId) -> u64 {
    match at {
        BlockId::Number(n) => n,
        BlockId::Hash(_) => 0,
    }
}

/// The nonce that is up at a block.
pub open spec fn spec_index(at: BlockId) -> int {
    FIRST_NONCE + spec_number_of(at)
}

/// The tag of a transfer: the low byte of its nonce.
pub open spec fn nonce_tag(nonce: Index) -> u8 {
    (nonce % 256) as u8
}

/// The tags that a transfer waits for at a block: none if its nonce is up, else
/// the tag before its own.
pub open spec fn required_tags(at: BlockId, nonce: Index) -> Seq<Seq<u8>> {
    if spec_index(at) == nonce {
        seq![]
    } else {
        seq![seq![(nonce_tag(nonce) - 1) as u8]]
    }
}

/// The tags that a transfer provides: its own.
pub open spec fn provided_tags(nonce: Index) -> Seq<Seq<u8>> {
    seq![seq![nonce_tag(nonce)]]
}

impl ValidTransaction {
    /// Whether this is what the API finds of a transfer with the given nonce
    /// before its modifier has had its way.
    pub open spec fn is_for(self, at: BlockId, nonce: Index) -> bool {
        &&& self.priority == 1
        &&& tags(self.required) == required_tags(at, nonce)
        &&& tags(self.provided) == provided_tags(nonce)
        &&& self.longevity == 64
        &&& self.propagate
    }
}

/// Whether two findings say the same.
pub open spec fn agree(one: ValidTransaction, other: ValidTransaction) -> bool {
    &&& one.priority == other.priority
    &&& tags(one.required) == tags(other.required)
    &&& tags(one.provided) == tags(other.provided)
    &&& one.longevity == other.longevity
    &&& one.propagate == other.propagate
}

/// Changes the validity of transactions to what a test needs.
///
/// An implementation can say through `may_turn` what it does; of one that says
/// nothing, nothing is known.
pub trait Modifier: Sized {
    /// Whether this modifier may turn `before` into `after`.
    open spec fn may_turn(&self, before: ValidTransaction, after: ValidTransaction) -> bool {
        true
    }

    fn modify(&self, validity: &mut ValidTransaction)
        ensures
            self.may_turn(*old(validity), *final(validity)),
    ;
}

/// The modifier that changes nothing.
#[derive(Clone, Copy, Debug, PartialEq, Eq, Structural)]
pub struct Unmodified;

impl Modifier for Unmodified {
    open spec fn may_turn(&self, before: ValidTransaction, after: ValidTransaction) -> bool {
        after == before
    }

    fn modify(&self, validity: &mut ValidTransaction) {
    }
}

/// Whether a modifier makes the same of findings that say the same.
pub open spec fn is_pure<M: Modifier>(modifier: M) -> bool {
    forall|
        one: ValidTransaction,
        other: ValidTransaction,
        from_one: ValidTransaction,
        from_other: ValidTransaction,
    |
        #[trigger] modifier.may_turn(one, from_one) && #[trigger] modifier.may_turn(
            other,
            from_other,
        ) && agree(one, other) ==> agree(from_one, from_other)
}

/// The chain API.
pub struct TestApi<M> {
    pub modifier: M,
}

impl TestApi<Unmodified> {
    /// The API that reports what it finds.
    pub fn default() -> (api: Self)
        ensures
            api.modifier == Unmodified,
    {
        TestApi { modifier: Unmodified }
    }
}

/// A list of one tag of one byte.
fn single_tag(tag: u8) -> (list: Vec<Vec<u8>>)
    ensures
        tags(list) == seq![seq![tag]],
{
    let inner: Vec<u8> = vec![tag];
    let list: Vec<Vec<u8>> = vec![inner];
    assert(tags(list) =~= seq![inner@]);
    assert(inner@ =~= seq![tag]);
    list
}

impl<M: Modifier> TestApi<M> {
    /// Whether the API may report `validity` of a transfer with the given nonce:
    /// whether its modifier may make that of what it finds.
    pub open spec fn may_find(
        self,
        at: BlockId,
        nonce: Index,
        validity: ValidTransaction,
    ) -> bool {
        exists|found: ValidTransaction|
            {
                &&& #[trigger] found.is_for(at, nonce)
                &&& self.modifier.may_turn(found, validity)
            }
    }

    /// Finds a transfer valid, and says where it stands in line.
    ///
    /// A transfer whose nonce is not up and whose tag is zero has no tag to
    /// wait for, and is left out.
    pub fn validate_transaction<O>(&self, at: &BlockId, uxt: &Extrinsic<O>) -> (validity:
        ValidTransaction)
        requires
            *uxt is Transfer,
            spec_index(*at) <= u64::MAX,
            spec_index(*at) == uxt.spec_transfer().nonce || nonce_tag(uxt.spec_transfer().nonce)
                != 0,
        ensures
            self.may_find(*at, uxt.spec_transfer().nonce, validity),
    {
        let expected: u64 = index(at);
        let nonce: u64 = uxt.transfer().nonce;
        let tag: u8 = (nonce % 256) as u8;
        let required = if expected == nonce {
            Vec::new()
        } else {
            single_tag(tag - 1)
        };
        let provided = single_tag(tag);
        assert(expected == nonce ==> tags(required) =~= seq![]);
        let mut validity = ValidTransaction {
            priority: 1,
            required,
            provided,
            longevity: 64,
            propagate: true,
        };
        assert(validity.is_for(*at, nonce));
        self.modifier.modify(&mut validity);
        validity
    }

    /// The number of a block.
    pub fn block_id_to_number(&self, at: &BlockId) -> (number: Option<u64>)
        ensures
            number == Some(spec_number_of(*at)),
    {
        Some(number_of(at))
    }

    /// The hash of a block; a block that is known by its number has the hash
    /// of zeros.
    pub fn block_id_to_hash(&self, at: &BlockId) -> (hash: Option<H256>)
        ensures
            match *at {
                BlockId::Hash(x) => hash == Some(x),
                BlockId::Number(_) => hash matches Some(x) && x.0@ == Seq::new(32, |i: int| 0u8),
            },
    {
        match at {
            BlockId::Hash(x) => Some(*x),
            BlockId::Number(_) => Some(H256::zero()),
        }
    }

    /// The hash and the length of the encoding of an extrinsic.
    pub fn hash_and_length<O: ExtrinsicCodec>(&self, ex: &Extrinsic<O>) -> (summary: (
        H256,
        usize,
    ))
        ensures
            summary.0.0@ == ex.spec_hash(),
            summary.1 == ex.spec_encode().len(),
    {
        let encoded = ex.encode();
        (crate::hashing::blake2_256(encoded.as_slice()), encoded.len())
    }
}

/// A pool over this API knows an extrinsic by the hash that the API gives to it.
impl<M: Modifier, O: ExtrinsicCodec> TransactionHash<Extrinsic<O>> for TestApi<M> {
    open spec fn spec_hash_of(&self, xt: Extrinsic<O>) -> Seq<u8> {
        xt.spec_hash()
    }

    fn hash_of(&self, xt: &Extrinsic<O>) -> (hash: H256) {
        self.hash_and_length(xt).0
    }
}

/// The nonce that is up at a block.
pub fn index(at: &BlockId) -> (nonce: u64)
    requires
        spec_index(*at) <= u64::MAX,
    ensures
        nonce == spec_index(*at),
{
    FIRST_NONCE + number_of(at)
}

/// The number of a block, or zero for a block that is known by its hash.
pub fn number_of(at: &BlockId) -> (number: u64)
    ensures
        number == spec_number_of(*at),
{
    match at {
        BlockId::Number(n) => *n,
        _ => 0,
    }
}

/// A transfer of one unit from a development account to the account of zeros,
/// signed by the former.
pub fn uxt<O>(who: AccountKeyring, nonce: Index) -> (extrinsic: Extrinsic<O>)
    ensures
        extrinsic is Transfer,
        extrinsic.spec_transfer().from@ == who.spec_account_id(),
        extrinsic.spec_transfer().to@ == Seq::new(32, |i: int| 0u8),
        extrinsic.spec_transfer().amount == 1,
        extrinsic.spec_transfer().nonce == nonce,
        extrinsic.spec_is_signed(),
        extrinsic matches Extrinsic::Transfer(transfer, signature) && sr25519_verifies(
            transfer.from@,
            SIGNING_CONTEXT@,
            transfer.encoding(),
            signature@,
        ),
{
    let transfer = Transfer { from: who.account_id(), to: H256::zero().0, amount: 1, nonce };
    proof {
        law_transfer_encoding_length(transfer);
    }
    let signature = who.sign(transfer.encode().as_slice());
    Extrinsic::Transfer(transfer, signature)
}

/// What a transaction pool is made of.
pub struct Pool<O, A> {
    /// The limits of the pool.
    pub options: O,
    /// The chain that the pool's transactions are for.
    pub api: A,
}

/// A pool with default options over the default API.
pub fn pool<O: Default>() -> (pool: Pool<O, TestApi<Unmodified>>)
    ensures
        call_ensures(O::default, (), pool.options),
        pool.api.modifier == Unmodified,
{
    Pool { options: Default::default(), api: TestApi::default() }
}

/// Transfers stand in line by their nonces: one whose nonce is not up waits for
/// exactly what the transfer with the nonce before it provides.
pub proof fn law_waits_for_previous_nonce(at: BlockId, nonce: Index)
    requires
        nonce > 0,
        nonce_tag(nonce) != 0,
        spec_index(at) != nonce,
    ensures
        required_tags(at, nonce) == provided_tags((nonce - 1) as u64),
{
    assert(nonce_tag(nonce) - 1 == nonce_tag((nonce - 1) as u64));
}

/// A transfer is ready, waiting for nothing, exactly if its nonce is up.
pub proof fn law_ready_when_up(at: BlockId, nonce: Index)
    ensures
        required_tags(at, nonce).len() == 0 <==> spec_index(at) == nonce,
{
}

/// The nonce that is up goes up by one with each block.
pub proof fn law_next_block_next_nonce(number: u64)
    requires
        number < u64::MAX,
    ensures
        spec_index(BlockId::Number((number + 1) as u64)) == spec_index(BlockId::Number(number))
            + 1,
{
}

/// What is found of a transfer depends on its nonce and on the number of the
/// block alone: not on its accounts, its amount or its signature, and not on
/// the hash of a block that is known by its hash, which counts as block zero.
pub proof fn law_validity_depends_on_nonce_and_number<M: Modifier, O>(
    api: TestApi<M>,
    at: BlockId,
    also_at: BlockId,
    uxt: Extrinsic<O>,
    other_uxt: Extrinsic<O>,
    validity: ValidTransaction,
    other_validity: ValidTransaction,
)
    requires
        is_pure(api.modifier),
        uxt is Transfer,
        other_uxt is Transfer,
        spec_number_of(at) == spec_number_of(also_at),
        uxt.spec_transfer().nonce == other_uxt.spec_transfer().nonce,
        api.may_find(at, uxt.spec_transfer().nonce, validity),
        api.may_find(also_at, other_uxt.spec_transfer().nonce, other_validity),
    ensures
        agree(validity, other_validity),
{
    let nonce = uxt.spec_transfer().nonce;
    let found = choose|found: ValidTransaction|
        {
            &&& #[trigger] found.is_for(at, nonce)
            &&& api.modifier.may_turn(found, validity)
        };
    let other_found = choose|found: ValidTransaction|
        {
            &&& #[trigger] found.is_for(also_at, nonce)
            &&& api.modifier.may_turn(found, other_validity)
        };
    assert(agree(found, other_found));
}

/// The modifier of the default API makes the same of findings that say the same.
pub proof fn law_unmodified_is_pure()
    ensures
        is_pure(Unmodified),
{
}

/// Whether a finding is the one of a transfer with the given nonce at the block
/// with the given number: priority one, longevity 64, passed on to peers, its
/// tag the low byte of its nonce, and waiting for the tag before unless the
/// nonce is 209 more than the number.
pub open spec fn lines_up(found: ValidTransaction, number: u64, nonce: u64) -> bool {
    &&& found.priority == 1
    &&& found.longevity == 64
    &&& found.propagate
    &&& found.provided@.len() == 1
    &&& found.provided@[0]@ == seq![(nonce % 256) as u8]
    &&& 209 + number == nonce ==> found.required@.len() == 0
    &&& 209 + number != nonce ==> {
        &&& found.required@.len() == 1
        &&& found.required@[0]@ == seq![(nonce % 256 - 1) as u8]
    }
}

/// What the API may find is what lines the transfer up, as its modifier may turn
/// it; a block that is known by its hash counts as block zero.
pub proof fn law_transfers_line_up<M: Modifier>(
    api: TestApi<M>,
    at: BlockId,
    nonce: Index,
    validity: ValidTransaction,
)
    requires
        api.may_find(at, nonce, validity),
    ensures
        exists|found: ValidTransaction|
            {
                &&& #[trigger] api.modifier.may_turn(found, validity)
                &&& lines_up(
                    found,
                    match at {
                        BlockId::Number(n) => n,
                        BlockId::Hash(_) => 0,
                    },
                    nonce,
                )
            },
{
    let found = choose|found: ValidTransaction|
        {
            &&& #[trigger] found.is_for(at, nonce)
            &&& api.modifier.may_turn(found, validity)
        };
    lemma_tags(found.required);
    lemma_tags(found.provided);
    assert(tags(found.provided)[0] == found.provided@[0]@);
    if spec_index(at) != nonce {
        assert(tags(found.required)[0] == found.required@[0]@);
    }
    assert(api.modifier.may_turn(found, validity));
}

proof fn lemma_tags(list: Vec<Vec<u8>>)
    ensures
        tags(list).len() == list@.len(),
        forall|i: int| 0 <= i < list@.len() ==> #[trigger] tags(list)[i] == list@[i]@,
{
}

/// The API with the modifier that changes nothing reports what lines a transfer
/// up, at every block and for every nonce.
pub proof fn law_default_api_reports_what_it_finds<O>(
    api: TestApi<Unmodified>,
    at: BlockId,
    uxt: Extrinsic<O>,
    validity: ValidTransaction,
)
    requires
        uxt is Transfer,
        call_ensures(TestApi::<Unmodified>::validate_transaction::<O>, (&api, &at, &uxt), validity),
    ensures
        lines_up(
            validity,
            match at {
                BlockId::Number(n) => n,
                BlockId::Hash(_) => 0,
            },
            uxt->Transfer_0.nonce,
        ),
{
    law_transfers_line_up(api, at, uxt.spec_transfer().nonce, validity);
}

/// The API with the modifier that changes nothing gives every transfer the same
/// priority and longevity and has it passed on to peers, whether its nonce is up
/// or not.
pub proof fn law_default_api_is_uniform(
    api: TestApi<Unmodified>,
    at: BlockId,
    nonce: Index,
    validity: ValidTransaction,
)
    requires
        api.may_find(at, nonce, validity),
    ensures
        validity.priority == 1,
        validity.longevity == 64,
        validity.propagate,
{
    law_transfers_line_up(api, at, nonce, validity);
}

/// Whatever API it is, the validation of a transfer reports what may be found
/// of its nonce.
pub proof fn law_validation_goes_by_the_nonce<M: Modifier, O>(
    api: TestApi<M>,
    at: BlockId,
    transfer: Transfer,
    signature: [u8; 64],
    validity: ValidTransaction,
)
    requires
        call_ensures(
            TestApi::<M>::validate_transaction::<O>,
            (&api, &at, &Extrinsic::Transfer(transfer, signature)),
            validity,
        ),
    ensures
        api.may_find(at, transfer.nonce, validity),
{
}

/// A block has the number that it is known by, or zero; the nonce that is up is
/// 209 more. It has the hash that it is known by, or that of zeros.
pub proof fn law_blocks_are_told_by_their_ids<M: Modifier>(
    api: TestApi<M>,
    at: BlockId,
    number: u64,
    nonce: u64,
    reported: Option<u64>,
    hash: Option<H256>,
)
    requires
        call_ensures(number_of, (&at,), number),
        call_ensures(index, (&at,), nonce),
        call_ensures(TestApi::<M>::block_id_to_number, (&api, &at), reported),
        call_ensures(TestApi::<M>::block_id_to_hash, (&api, &at), hash),
    ensures
        match at {
            BlockId::Number(n) => {
                &&& number == n
                &&& hash matches Some(h)
                &&& forall|i: int| 0 <= i < 32 ==> #[trigger] h.0@[i] == 0
            },
            BlockId::Hash(h) => number == 0 && hash == Some(h),
        },
        nonce == 209 + number,
        reported == Some(number),
{
}

/// An extrinsic is known by the digest of its whole encoding, and is as long as
/// that.
pub proof fn law_hash_and_length_of_the_encoding<M: Modifier, O: ExtrinsicCodec>(
    api: TestApi<M>,
    xt: Extrinsic<O>,
    summary: (H256, usize),
)
    requires
        call_ensures(TestApi::<M>::hash_and_length::<O>, (&api, &xt), summary),
    ensures
        summary.0.0@ == blake2b_32(xt.spec_encode()),
        summary.1 == xt.spec_encode().len(),
        api.spec_hash_of(xt) == blake2b_32(xt.spec_encode()),
{
}

/// A test transfer goes from the account to the account of zeros, moves one unit,
/// has the nonce that was asked for, and is signed by the account over its whole
/// encoding, with its nonce.
pub proof fn law_test_transfer<O>(who: AccountKeyring, nonce: Index, xt: Extrinsic<O>)
    requires
        call_ensures(uxt::<O>, (who, nonce), xt),
    ensures
        xt matches Extrinsic::Transfer(transfer, signature) && {
            &&& transfer.from@ == who.spec_account_id()
            &&& transfer.to@ == Seq::new(32, |i: int| 0u8)
            &&& transfer.amount == 1
            &&& transfer.nonce == nonce
            &&& sr25519_verifies(
                who.spec_account_id(),
                seq![115u8, 117u8, 98u8, 115u8, 116u8, 114u8, 97u8, 116u8, 101u8],
                who.spec_account_id() + Seq::new(32, |i: int| 0u8) + spec_u64_to_le_bytes(1)
                    + spec_u64_to_le_bytes(nonce),
                signature@,
            )
        },
{
    law_signing_context();
    law_transfer_encoding_layout(xt.spec_transfer());
}

} // verus!
