//! The block-author API: what its calls hand to the client, the pool and the
//! key store, and what they report of the answers.

use vstd::prelude::*;
use vstd::utf8::encode_utf8;

use crate::primitives::{BlockId, Bytes, H256};
use crate::transaction_format::{
    extrinsic_in, read_alone, reads_back, ExtrinsicCodec, TransactionHash,
};

verus! {

/// Why a call failed: by a failure `F` of a service, or since bytes are not an
/// extrinsic, for a reason `D`.
#[derive(Debug)]
pub enum AuthorError<D, F> {
    /// The client failed.
    Client(F),
    /// The pool turned the extrinsic down.
    Pool(F),
    /// The extrinsic could not be verified.
    Verification(F),
    /// The bytes are not an extrinsic.
    BadFormat(D),
    /// The key type is not one.
    BadKeyType,
    /// The key store did not take the key.
    KeyStoreUnavailable,
}

/// Why the pool did not take an extrinsic.
#[derive(Debug)]
pub enum PoolFailure<F> {
    /// For a reason of the pool's own.
    Pool(F),
    /// For any other reason.
    Other(F),
}

/// Authoring API.
pub struct Author<C, P, S, K> {
    /// The client.
    pub client: C,
    /// The transaction pool.
    pub pool: P,
    /// The subscriptions manager.
    pub subscriptions: S,
    /// The key store.
    pub keystore: K,
}

impl<C, P, S, K> Author<C, P, S, K> {
    /// Create new instance of Authoring API.
    pub fn new(client: C, pool: P, subscriptions: S, keystore: K) -> (author: Self)
        ensures
            author == (Author { client, pool, subscriptions, keystore }),
    {
        Author { client, pool, subscriptions, keystore }
    }
}

/// The type of a key: what it is for.
#[derive(Clone, Copy, Debug, PartialEq, Eq)]
pub struct KeyTypeId(pub [u8; 4]);

impl KeyTypeId {
    /// The key type that is written `text`; there is one exactly for texts of
    /// four bytes.
    pub fn from_text(text: &str) -> (key_type: Option<KeyTypeId>)
        ensures
            key_type is Some <==> encode_utf8(text@).len() == 4,
            key_type matches Some(id) ==> id.0@ == encode_utf8(text@),
    {
        let bytes = text.as_bytes();
        if bytes.len() != 4 {
            return None;
        }
        let id = [bytes[0], bytes[1], bytes[2], bytes[3]];
        assert(id@ =~= encode_utf8(text@));
        Some(KeyTypeId(id))
    }
}

/// What the key store is asked to take.
#[derive(Debug)]
pub struct KeyInsertion {
    pub key_type: KeyTypeId,
    /// The secret that the key is made of.
    pub suri: String,
    pub public: Bytes,
}

/// Whether asking to insert a key comes to `request`.
pub open spec fn requests_insertion<D, F>(
    key_type: Seq<char>,
    suri: String,
    public: Bytes,
    request: Result<KeyInsertion, AuthorError<D, F>>,
) -> bool {
    match request {
        Ok(insertion) => {
            &&& insertion.key_type.0@ == encode_utf8(key_type)
            &&& insertion.suri == suri
            &&& insertion.public == public
        },
        Err(error) => error is BadKeyType && encode_utf8(key_type).len() != 4,
    }
}

/// Checks a key that is to be inserted, and says what to ask of the key store.
pub fn insert_key<D, F>(key_type: String, suri: String, public: Bytes) -> (request: Result<
    KeyInsertion,
    AuthorError<D, F>,
>)
    ensures
        requests_insertion(key_type@, suri, public, request),
{
    match KeyTypeId::from_text(key_type.as_str()) {
        None => Err(AuthorError::BadKeyType),
        Some(key_type) => Ok(KeyInsertion { key_type, suri, public }),
    }
}

/// What is reported of an insertion, from what the key store said of it.
pub fn key_inserted<E, D, F>(outcome: Result<(), E>) -> (report: Result<(), AuthorError<D, F>>)
    ensures
        report == match outcome {
            Ok(()) => Ok::<(), AuthorError<D, F>>(()),
            Err(_) => Err(AuthorError::KeyStoreUnavailable),
        },
{
    match outcome {
        Ok(()) => Ok(()),
        Err(_) => Err(AuthorError::KeyStoreUnavailable),
    }
}

/// What the runtime is asked for when keys are rotated.
#[derive(Debug)]
pub struct SessionKeyRequest {
    /// The block whose runtime generates the keys.
    pub at: BlockId,
    /// What to generate the keys from; random if it is not given.
    pub seed: Option<Vec<u8>>,
}

/// Says what to ask of the runtime to rotate the session keys: random ones, at
/// the best block.
pub fn rotate_keys(best_block_hash: H256) -> (request: SessionKeyRequest)
    ensures
        request == (SessionKeyRequest { at: BlockId::Hash(best_block_hash), seed: None }),
{
    SessionKeyRequest { at: BlockId::Hash(best_block_hash), seed: None }
}

/// What is reported of rotated keys, from what the runtime returned.
pub fn keys_rotated<D, F>(outcome: Result<Vec<u8>, F>) -> (report: Result<
    Bytes,
    AuthorError<D, F>,
>)
    ensures
        report == match outcome {
            Ok(keys) => Ok::<Bytes, AuthorError<D, F>>(Bytes(keys)),
            Err(e) => Err(AuthorError::Client(e)),
        },
{
    match outcome {
        Ok(keys) => Ok(Bytes(keys)),
        Err(e) => Err(AuthorError::Client(e)),
    }
}

/// What the pool is asked to take.
#[derive(Clone, Copy, Debug)]
pub struct Submission<X> {
    /// The block that the extrinsic is validated at.
    pub at: BlockId,
    pub extrinsic: X,
}

/// What submitting `bytes` comes to: the extrinsic that they decode to, at the
/// best block, or why they decode to none.
pub open spec fn requested_submission<X: ExtrinsicCodec, F>(
    bytes: Seq<u8>,
    best_block_hash: H256,
) -> Result<Submission<X>, AuthorError<X::FormatError, F>> {
    match extrinsic_in::<X>(bytes) {
        Ok(extrinsic) => Ok(Submission { at: BlockId::Hash(best_block_hash), extrinsic }),
        Err(reason) => Err(AuthorError::BadFormat(reason)),
    }
}

/// Decodes an extrinsic that is to be submitted, and says what to ask of the
/// pool: to take it at the best block.
pub fn submit_extrinsic<X: ExtrinsicCodec, F>(
    ext: &Bytes,
    best_block_hash: H256,
) -> (request: Result<Submission<X>, AuthorError<X::FormatError, F>>)
    ensures
        request == requested_submission::<X, F>(ext.0@, best_block_hash),
{
    match X::decode(ext.0.as_slice()) {
        Ok((extrinsic, _)) => Ok(Submission { at: BlockId::Hash(best_block_hash), extrinsic }),
        Err(reason) => Err(AuthorError::BadFormat(reason)),
    }
}

/// How a failure of the pool is reported.
pub open spec fn pool_report<D, F>(failure: PoolFailure<F>) -> AuthorError<D, F> {
    match failure {
        PoolFailure::Pool(e) => AuthorError::Pool(e),
        PoolFailure::Other(e) => AuthorError::Verification(e),
    }
}

fn report_pool_failure<D, F>(failure: PoolFailure<F>) -> (error: AuthorError<D, F>)
    ensures
        error == pool_report::<D, F>(failure),
{
    match failure {
        PoolFailure::Pool(e) => AuthorError::Pool(e),
        PoolFailure::Other(e) => AuthorError::Verification(e),
    }
}

/// What is reported of a submission, from what the pool said of it.
pub fn extrinsic_submitted<D, F>(outcome: Result<H256, PoolFailure<F>>) -> (report: Result<
    H256,
    AuthorError<D, F>,
>)
    ensures
        report == match outcome {
            Ok(hash) => Ok::<H256, AuthorError<D, F>>(hash),
            Err(failure) => Err(pool_report::<D, F>(failure)),
        },
{
    match outcome {
        Ok(hash) => Ok(hash),
        Err(failure) => Err(report_pool_failure(failure)),
    }
}

/// A transaction in the pool.
#[derive(Clone, Copy, Debug)]
pub struct InPoolTransaction<X> {
    /// The hash that the pool knows the transaction by.
    pub hash: H256,
    pub data: X,
}

/// Whether `pending` are the encodings of the transactions that are ready, in
/// the same order.
pub open spec fn are_encodings<X: ExtrinsicCodec>(
    ready: Seq<InPoolTransaction<X>>,
    pending: Seq<Bytes>,
) -> bool {
    &&& pending.len() == ready.len()
    &&& forall|i: int|
        0 <= i < ready.len() ==> (#[trigger] pending[i]).0@ == ready[i].data.spec_encode()
}

/// The encodings of the transactions that are ready, in the pool's order.
pub fn pending_extrinsics<X: ExtrinsicCodec>(ready: &Vec<InPoolTransaction<X>>) -> (pending: Vec<
    Bytes,
>)
    ensures
        are_encodings(ready@, pending@),
{
    let mut pending: Vec<Bytes> = Vec::new();
    let mut i: usize = 0;
    while i < ready.len()
        invariant
            0 <= i <= ready@.len(),
            pending@.len() == i,
            forall|k: int|
                0 <= k < i ==> (#[trigger] pending@[k]).0@ == ready@[k].data.spec_encode(),
        decreases ready@.len() - i,
    {
        pending.push(Bytes(ready[i].data.encode()));
        i = i + 1;
    }
    pending
}

/// A transaction that is to be removed, by its hash or by its encoding.
#[derive(Clone, Debug)]
pub enum ExtrinsicOrHash {
    Hash(H256),
    Extrinsic(Bytes),
}

/// The hash that the pool knows the transaction by that `entry` stands for, or
/// why it stands for none.
pub open spec fn entry_hash<X: ExtrinsicCodec, P: TransactionHash<X>>(
    pool: P,
    entry: ExtrinsicOrHash,
) -> Result<Seq<u8>, X::FormatError> {
    match entry {
        ExtrinsicOrHash::Hash(hash) => Ok(hash.0@),
        ExtrinsicOrHash::Extrinsic(bytes) => match extrinsic_in::<X>(bytes.0@) {
            Ok(xt) => Ok(pool.spec_hash_of(xt)),
            Err(reason) => Err(reason),
        },
    }
}

/// Whether asking to remove `entries` comes to `request`: the hashes of all of
/// them, in their order, or the error of the first one that stands for no
/// transaction.
pub open spec fn requests_removal<X: ExtrinsicCodec, P: TransactionHash<X>, F>(
    pool: P,
    entries: Seq<ExtrinsicOrHash>,
    request: Result<Vec<H256>, AuthorError<X::FormatError, F>>,
) -> bool {
    match request {
        Ok(hashes) => {
            &&& hashes@.len() == entries.len()
            &&& forall|i: int|
                0 <= i < entries.len() ==> entry_hash::<X, P>(pool, #[trigger] entries[i]) == Ok::<
                    Seq<u8>,
                    X::FormatError,
                >(hashes@[i].0@)
        },
        Err(error) => exists|i: int|
            {
                &&& 0 <= i < entries.len()
                &&& error matches AuthorError::BadFormat(reason)
                &&& entry_hash::<X, P>(pool, #[trigger] entries[i]) == Err::<Seq<u8>, X::FormatError>(
                    reason,
                )
                &&& forall|k: int| 0 <= k < i ==> entry_hash::<X, P>(pool, #[trigger] entries[k]) is Ok
            },
    }
}

/// Finds out which transactions are to be removed, and says what to ask of the
/// pool: to remove the transactions with these hashes.
pub fn remove_extrinsic<X: ExtrinsicCodec, P: TransactionHash<X>, F>(
    pool: &P,
    bytes_or_hash: Vec<ExtrinsicOrHash>,
) -> (request: Result<Vec<H256>, AuthorError<X::FormatError, F>>)
    ensures
        requests_removal::<X, P, F>(*pool, bytes_or_hash@, request),
{
    let mut hashes: Vec<H256> = Vec::new();
    let mut i: usize = 0;
    while i < bytes_or_hash.len()
        invariant
            0 <= i <= bytes_or_hash@.len(),
            hashes@.len() == i,
            forall|k: int|
                0 <= k < i ==> entry_hash::<X, P>(*pool, #[trigger] bytes_or_hash@[k]) == Ok::<
                    Seq<u8>,
                    X::FormatError,
                >(hashes@[k].0@),
        decreases bytes_or_hash@.len() - i,
    {
        match &bytes_or_hash[i] {
            ExtrinsicOrHash::Hash(hash) => {
                hashes.push(*hash);
            },
            ExtrinsicOrHash::Extrinsic(bytes) => {
                match X::decode(bytes.0.as_slice()) {
                    Ok((xt, _)) => {
                        hashes.push(pool.hash_of(&xt));
                    },
                    Err(reason) => {
                        assert(entry_hash::<X, P>(*pool, bytes_or_hash@[i as int]) == Err::<
                            Seq<u8>,
                            X::FormatError,
                        >(reason));
                        return Err(AuthorError::BadFormat(reason));
                    },
                }
            },
        }
        i = i + 1;
    }
    Ok(hashes)
}

/// What is reported of a removal: the hashes of the transactions that the pool
/// removed, in the pool's order.
pub fn extrinsics_removed<X>(removed: &Vec<InPoolTransaction<X>>) -> (hashes: Vec<H256>)
    ensures
        hashes@ == removed@.map_values(|tx: InPoolTransaction<X>| tx.hash),
{
    let mut hashes: Vec<H256> = Vec::new();
    let mut i: usize = 0;
    while i < removed.len()
        invariant
            0 <= i <= removed@.len(),
            hashes@.len() == i,
            forall|k: int| 0 <= k < i ==> hashes@[k] == removed@[k].hash,
        decreases removed@.len() - i,
    {
        hashes.push(removed[i].hash);
        i = i + 1;
    }
    assert(hashes@ =~= removed@.map_values(|tx: InPoolTransaction<X>| tx.hash));
    hashes
}

/// What is done next for a subscriber who wants to watch an extrinsic `X`,
/// through a watcher `W`.
#[derive(Debug)]
pub enum WatchStep<X, W, D, F> {
    /// Submit the extrinsic to the pool and watch it.
    Submit(Submission<X>),
    /// Accept the subscriber, and send it what the watcher sees.
    Subscribe(W),
    /// Turn the subscriber away.
    Reject(AuthorError<D, F>),
}

/// How watching `bytes` begins.
pub open spec fn watch_begins<X: ExtrinsicCodec, W, F>(
    bytes: Seq<u8>,
    best_block_hash: H256,
) -> WatchStep<X, W, X::FormatError, F> {
    match requested_submission::<X, F>(bytes, best_block_hash) {
        Ok(submission) => WatchStep::Submit(submission),
        Err(error) => WatchStep::Reject(error),
    }
}

/// Decodes an extrinsic that is to be submitted and watched: it is submitted at
/// the best block, or its subscriber is turned away.
pub fn watch_extrinsic<X: ExtrinsicCodec, W, F>(
    xt: &Bytes,
    best_block_hash: H256,
) -> (step: WatchStep<X, W, X::FormatError, F>)
    ensures
        step == watch_begins::<X, W, F>(xt.0@, best_block_hash),
{
    match submit_extrinsic(xt, best_block_hash) {
        Ok(submission) => WatchStep::Submit(submission),
        Err(error) => WatchStep::Reject(error),
    }
}

/// What becomes of a subscriber whose extrinsic was submitted.
pub open spec fn watch_goes_on<X, W, D, F>(outcome: Result<W, PoolFailure<F>>) -> WatchStep<
    X,
    W,
    D,
    F,
> {
    match outcome {
        Ok(watcher) => WatchStep::Subscribe(watcher),
        Err(failure) => WatchStep::Reject(pool_report(failure)),
    }
}

/// What becomes of the subscriber, from what the pool said of the submission.
pub fn extrinsic_watched<X, W, D, F>(outcome: Result<W, PoolFailure<F>>) -> (step: WatchStep<
    X,
    W,
    D,
    F,
>)
    ensures
        step == watch_goes_on::<X, W, D, F>(outcome),
{
    match outcome {
        Ok(watcher) => WatchStep::Subscribe(watcher),
        Err(failure) => WatchStep::Reject(report_pool_failure(failure)),
    }
}

/// A key is asked for exactly if its type is written with four bytes.
pub proof fn law_key_type_decides<D, F>(
    key_type: Seq<char>,
    suri: String,
    public: Bytes,
    request: Result<KeyInsertion, AuthorError<D, F>>,
)
    requires
        requests_insertion(key_type, suri, public, request),
    ensures
        request is Ok <==> encode_utf8(key_type).len() == 4,
{
    if let Ok(insertion) = request {
        assert(insertion.key_type.0@.len() == 4);
    }
}

/// An extrinsic that is submitted in its encoding reaches the pool as it is.
pub proof fn law_submission_reaches_pool<X: ExtrinsicCodec, F>(
    extrinsic: X,
    best_block_hash: H256,
)
    requires
        reads_back(extrinsic),
    ensures
        requested_submission::<X, F>(extrinsic.spec_encode(), best_block_hash) == Ok::<
            Submission<X>,
            AuthorError<X::FormatError, F>,
        >(Submission { at: BlockId::Hash(best_block_hash), extrinsic }),
{
}

/// What follows an extrinsic is ignored, and is no error: with anything else
/// after the bytes that are read for the extrinsic, the same is submitted,
/// watched and removed.
pub proof fn law_what_follows_is_ignored<X: ExtrinsicCodec, P: TransactionHash<X>, W, F>(
    pool: P,
    ext: Bytes,
    xt: X,
    read: usize,
    rest: Seq<u8>,
    ext2: Bytes,
    best_block_hash: H256,
)
    requires
        X::spec_decode(ext.0@) == Ok::<(X, usize), X::FormatError>((xt, read)),
        read_alone::<X>(ext.0@),
        ext2.0@ == ext.0@.take(read as int) + rest,
    ensures
        requested_submission::<X, F>(ext2.0@, best_block_hash) == requested_submission::<X, F>(
            ext.0@,
            best_block_hash,
        ),
        requested_submission::<X, F>(ext2.0@, best_block_hash) == Ok::<
            Submission<X>,
            AuthorError<X::FormatError, F>,
        >(Submission { at: BlockId::Hash(best_block_hash), extrinsic: xt }),
        watch_begins::<X, W, F>(ext2.0@, best_block_hash) == watch_begins::<X, W, F>(
            ext.0@,
            best_block_hash,
        ),
        entry_hash::<X, P>(pool, ExtrinsicOrHash::Extrinsic(ext2)) == entry_hash::<X, P>(
            pool,
            ExtrinsicOrHash::Extrinsic(ext),
        ),
        entry_hash::<X, P>(pool, ExtrinsicOrHash::Extrinsic(ext2)) == Ok::<
            Seq<u8>,
            X::FormatError,
        >(pool.spec_hash_of(xt)),
{
}

/// What is pending can be handed in again: each encoding decodes to its
/// transaction, is submitted as that transaction, and stands for the hash that
/// the pool gives to it when it is to be removed.
pub proof fn law_pending_stand_for_their_transactions<
    X: ExtrinsicCodec,
    P: TransactionHash<X>,
    F,
>(
    pool: P,
    ready: Seq<InPoolTransaction<X>>,
    pending: Seq<Bytes>,
    i: int,
    best_block_hash: H256,
)
    requires
        are_encodings(ready, pending),
        0 <= i < pending.len(),
        reads_back(ready[i].data),
    ensures
        extrinsic_in::<X>(pending[i].0@) == Ok::<X, X::FormatError>(ready[i].data),
        requested_submission::<X, F>(pending[i].0@, best_block_hash) == Ok::<
            Submission<X>,
            AuthorError<X::FormatError, F>,
        >(Submission { at: BlockId::Hash(best_block_hash), extrinsic: ready[i].data }),
        entry_hash::<X, P>(pool, ExtrinsicOrHash::Extrinsic(pending[i])) == Ok::<
            Seq<u8>,
            X::FormatError,
        >(pool.spec_hash_of(ready[i].data)),
{
}

/// A removal is all or nothing: the pool is asked to remove anything exactly if
/// every entry stands for a transaction.
pub proof fn law_removal_is_all_or_nothing<X: ExtrinsicCodec, P: TransactionHash<X>, F>(
    pool: P,
    entries: Seq<ExtrinsicOrHash>,
    request: Result<Vec<H256>, AuthorError<X::FormatError, F>>,
)
    requires
        requests_removal::<X, P, F>(pool, entries, request),
    ensures
        request is Ok <==> forall|i: int|
            0 <= i < entries.len() ==> entry_hash::<X, P>(pool, #[trigger] entries[i]) is Ok,
{
}

/// Whether `encoded` is the encoding of a transaction, read back from it, whose
/// hash is `hashed`.
pub open spec fn is_encoded_for<X: ExtrinsicCodec, P: TransactionHash<X>>(
    pool: P,
    encoded: ExtrinsicOrHash,
    hashed: ExtrinsicOrHash,
) -> bool {
    exists|xt: X|
        {
            &&& encoded matches ExtrinsicOrHash::Extrinsic(bytes)
            &&& bytes.0@ == #[trigger] xt.spec_encode()
            &&& reads_back(xt)
            &&& hashed matches ExtrinsicOrHash::Hash(hash)
            &&& hash.0@ == pool.spec_hash_of(xt)
        }
}

/// It makes no difference whether transactions are removed by their encodings
/// or by the hashes that the pool gives to them: two lists that differ in
/// nothing else come to the same request.
pub proof fn law_removal_by_encoding_or_hash<X: ExtrinsicCodec, P: TransactionHash<X>, F>(
    pool: P,
    entries: Seq<ExtrinsicOrHash>,
    others: Seq<ExtrinsicOrHash>,
    request: Result<Vec<H256>, AuthorError<X::FormatError, F>>,
    other_request: Result<Vec<H256>, AuthorError<X::FormatError, F>>,
)
    requires
        entries.len() == others.len(),
        forall|i: int|
            0 <= i < entries.len() ==> {
                ||| (#[trigger] entries[i]) == others[i]
                ||| is_encoded_for::<X, P>(pool, entries[i], others[i])
                ||| is_encoded_for::<X, P>(pool, others[i], entries[i])
            },
        requests_removal::<X, P, F>(pool, entries, request),
        requests_removal::<X, P, F>(pool, others, other_request),
    ensures
        match (request, other_request) {
            (Ok(hashes), Ok(other_hashes)) => hashes@ == other_hashes@,
            (Err(error), Err(other_error)) => error == other_error,
            _ => false,
        },
{
    assert forall|i: int| 0 <= i < entries.len() implies entry_hash::<X, P>(pool, #[trigger] entries[i])
        == entry_hash::<X, P>(pool, others[i]) by {}
    match (request, other_request) {
        (Ok(hashes), Ok(other_hashes)) => {
            assert forall|i: int| 0 <= i < hashes@.len() implies hashes@[i] == other_hashes@[i] by {
                assert(entry_hash::<X, P>(pool, entries[i]) == entry_hash::<X, P>(pool, others[i]));
                assert(hashes@[i].0 =~= other_hashes@[i].0);
            }
            assert(hashes@ =~= other_hashes@);
        },
        (Ok(hashes), Err(_)) => {
            let i = choose|i: int|
                0 <= i < others.len() && entry_hash::<X, P>(pool, #[trigger] others[i]) is Err;
            assert(entry_hash::<X, P>(pool, entries[i]) is Ok);
        },
        (Err(_), Ok(_)) => {
            let i = choose|i: int|
                0 <= i < entries.len() && entry_hash::<X, P>(pool, #[trigger] entries[i]) is Err;
            assert(entry_hash::<X, P>(pool, others[i]) is Ok);
        },
        (Err(_), Err(_)) => {
            let i = choose|i: int|
                {
                    &&& 0 <= i < entries.len()
                    &&& entry_hash::<X, P>(pool, #[trigger] entries[i]) is Err
                    &&& forall|k: int| 0 <= k < i ==> entry_hash::<X, P>(pool, #[trigger] entries[k]) is Ok
                };
            let j = choose|j: int|
                {
                    &&& 0 <= j < others.len()
                    &&& entry_hash::<X, P>(pool, #[trigger] others[j]) is Err
                    &&& forall|k: int| 0 <= k < j ==> entry_hash::<X, P>(pool, #[trigger] others[k]) is Ok
                };
            assert(entry_hash::<X, P>(pool, others[i]) is Err);
            assert(entry_hash::<X, P>(pool, entries[j]) is Err);
            assert(i == j);
        },
    }
}

/// How watching `bytes` ends, if `outcome` is what the pool says of the
/// extrinsic once it is submitted.
pub open spec fn watch_ends<X: ExtrinsicCodec, W, F>(
    bytes: Seq<u8>,
    best_block_hash: H256,
    outcome: Result<W, PoolFailure<F>>,
) -> WatchStep<X, W, X::FormatError, F> {
    match watch_begins::<X, W, F>(bytes, best_block_hash) {
        WatchStep::Submit(_) => watch_goes_on(outcome),
        decided => decided,
    }
}

/// A watch ends in exactly one of two ways: the subscriber is accepted, which
/// is so exactly if the bytes decode and the pool takes the extrinsic, and is
/// then sent what the pool's watcher sees; or the subscriber is turned away with
/// the reason, be it of the decoding or of the pool.
pub proof fn law_watch_subscribes_or_rejects<X: ExtrinsicCodec, W, F>(
    bytes: Seq<u8>,
    best_block_hash: H256,
    outcome: Result<W, PoolFailure<F>>,
)
    ensures
        ({
            let end = watch_ends::<X, W, F>(bytes, best_block_hash, outcome);
            let decoded = extrinsic_in::<X>(bytes);
            &&& end is Subscribe <==> !(end is Reject)
            &&& end is Subscribe <==> decoded is Ok && outcome is Ok
            &&& end matches WatchStep::Subscribe(watcher) ==> outcome == Ok::<W, PoolFailure<F>>(
                watcher,
            )
            &&& end matches WatchStep::Reject(error) ==> match decoded {
                Err(reason) => error == AuthorError::<X::FormatError, F>::BadFormat(reason),
                Ok(_) => outcome matches Err(failure) && error == pool_report::<
                    X::FormatError,
                    F,
                >(failure),
            }
        }),
{
}

/// A key is handed to the store with the type, the secret and the public part
/// that came with it, if its type is written with four bytes; else it is the
/// type that is reported.
pub proof fn law_key_is_handed_over_as_it_came<D, F>(
    key_type: String,
    suri: String,
    public: Bytes,
    request: Result<KeyInsertion, AuthorError<D, F>>,
)
    requires
        call_ensures(insert_key::<D, F>, (key_type, suri, public), request),
    ensures
        encode_utf8(key_type@).len() == 4 ==> {
            &&& request matches Ok(insertion)
            &&& insertion.key_type.0@ == encode_utf8(key_type@)
            &&& insertion.suri == suri
            &&& insertion.public == public
        },
        encode_utf8(key_type@).len() != 4 ==> request == Err::<KeyInsertion, AuthorError<D, F>>(
            AuthorError::BadKeyType,
        ),
{
    law_key_type_decides(key_type@, suri, public, request);
}

/// Keys are rotated at the best block, at random; what the runtime and the key
/// store say is what is reported, a failing store being unavailable.
pub proof fn law_keys_are_reported<E, D, F>(
    best_block_hash: H256,
    request: SessionKeyRequest,
    generated: Result<Vec<u8>, F>,
    rotated: Result<Bytes, AuthorError<D, F>>,
    stored: Result<(), E>,
    inserted: Result<(), AuthorError<D, F>>,
)
    requires
        call_ensures(rotate_keys, (best_block_hash,), request),
        call_ensures(keys_rotated::<D, F>, (generated,), rotated),
        call_ensures(key_inserted::<E, D, F>, (stored,), inserted),
    ensures
        request.at == BlockId::Hash(best_block_hash),
        request.seed is None,
        match generated {
            Ok(keys) => rotated matches Ok(bytes) && bytes.0 == keys,
            Err(e) => rotated == Err::<Bytes, AuthorError<D, F>>(AuthorError::Client(e)),
        },
        match stored {
            Ok(()) => inserted is Ok,
            Err(_) => inserted == Err::<(), AuthorError<D, F>>(AuthorError::KeyStoreUnavailable),
        },
{
}

/// Bytes are submitted as the extrinsic that they begin with, at the best block;
/// if they begin with none, the reason is reported.
pub proof fn law_decoded_extrinsic_is_submitted<X: ExtrinsicCodec, F>(
    ext: Bytes,
    best_block_hash: H256,
    request: Result<Submission<X>, AuthorError<X::FormatError, F>>,
)
    requires
        call_ensures(submit_extrinsic::<X, F>, (&ext, best_block_hash), request),
    ensures
        match X::spec_decode(ext.0@) {
            Ok((xt, _)) => request == Ok::<Submission<X>, AuthorError<X::FormatError, F>>(
                Submission { at: BlockId::Hash(best_block_hash), extrinsic: xt },
            ),
            Err(reason) => request == Err::<Submission<X>, AuthorError<X::FormatError, F>>(
                AuthorError::BadFormat(reason),
            ),
        },
{
}

/// Watching bytes begins by submitting the extrinsic that they begin with, at the
/// best block; if they begin with none, the subscriber is turned away with the
/// reason.
pub proof fn law_watched_extrinsic_is_submitted<X: ExtrinsicCodec, W, F>(
    xt: Bytes,
    best_block_hash: H256,
    begun: WatchStep<X, W, X::FormatError, F>,
)
    requires
        call_ensures(watch_extrinsic::<X, W, F>, (&xt, best_block_hash), begun),
    ensures
        begun == watch_begins::<X, W, F>(xt.0@, best_block_hash),
        match X::spec_decode(xt.0@) {
            Ok((extrinsic, _)) => begun == WatchStep::<X, W, X::FormatError, F>::Submit(
                Submission { at: BlockId::Hash(best_block_hash), extrinsic },
            ),
            Err(reason) => begun == WatchStep::<X, W, X::FormatError, F>::Reject(
                AuthorError::BadFormat(reason),
            ),
        },
{
}

/// What the pool says of an extrinsic is what is reported of it: a failure of
/// the pool's own as such, any other as one of the verification. It makes no
/// difference to that whether the extrinsic is watched.
pub proof fn law_pool_answer_is_reported<X, W, D, F>(
    submitted: Result<H256, PoolFailure<F>>,
    report: Result<H256, AuthorError<D, F>>,
    watched: Result<W, PoolFailure<F>>,
    end: WatchStep<X, W, D, F>,
)
    requires
        call_ensures(extrinsic_submitted::<D, F>, (submitted,), report),
        call_ensures(extrinsic_watched::<X, W, D, F>, (watched,), end),
    ensures
        match submitted {
            Ok(hash) => report == Ok::<H256, AuthorError<D, F>>(hash),
            Err(PoolFailure::Pool(e)) => report == Err::<H256, AuthorError<D, F>>(
                AuthorError::Pool(e),
            ),
            Err(PoolFailure::Other(e)) => report == Err::<H256, AuthorError<D, F>>(
                AuthorError::Verification(e),
            ),
        },
        match watched {
            Ok(watcher) => end == WatchStep::<X, W, D, F>::Subscribe(watcher),
            Err(PoolFailure::Pool(e)) => end == WatchStep::<X, W, D, F>::Reject(
                AuthorError::Pool(e),
            ),
            Err(PoolFailure::Other(e)) => end == WatchStep::<X, W, D, F>::Reject(
                AuthorError::Verification(e),
            ),
        },
{
}

/// Pending are the encodings of all that is ready, in the pool's order, and what
/// is reported of a removal are the hashes of all that was removed.
pub proof fn law_pool_contents_are_listed<X: ExtrinsicCodec>(
    ready: Vec<InPoolTransaction<X>>,
    pending: Vec<Bytes>,
    removed: Vec<InPoolTransaction<X>>,
    hashes: Vec<H256>,
)
    requires
        call_ensures(pending_extrinsics::<X>, (&ready,), pending),
        call_ensures(extrinsics_removed::<X>, (&removed,), hashes),
    ensures
        pending@.len() == ready@.len(),
        forall|i: int|
            0 <= i < ready@.len() ==> (#[trigger] pending@[i]).0@ == ready@[i].data.spec_encode(),
        hashes@.len() == removed@.len(),
        forall|i: int| 0 <= i < removed@.len() ==> #[trigger] hashes@[i] == removed@[i].hash,
{
}

/// Whether `entry` is to be removed by `hash`: it is that hash, or bytes that
/// begin with an extrinsic which the pool knows by it.
pub open spec fn removes_by<X: ExtrinsicCodec, P: TransactionHash<X>>(
    pool: P,
    entry: ExtrinsicOrHash,
    hash: Seq<u8>,
) -> bool {
    match entry {
        ExtrinsicOrHash::Hash(given) => given.0@ == hash,
        ExtrinsicOrHash::Extrinsic(bytes) => {
            &&& X::spec_decode(bytes.0@) matches Ok((xt, _))
            &&& pool.spec_hash_of(xt) == hash
        },
    }
}

/// Whether `entry` is bytes that begin with no extrinsic, for this reason.
pub open spec fn is_no_extrinsic<X: ExtrinsicCodec>(
    entry: ExtrinsicOrHash,
    reason: X::FormatError,
) -> bool {
    entry matches ExtrinsicOrHash::Extrinsic(bytes) && X::spec_decode(bytes.0@) == Err::<
        (X, usize),
        X::FormatError,
    >(reason)
}

/// The pool is asked to remove every entry by its hash, in the order of the
/// entries; or the first entry that is no extrinsic is reported, and then every
/// entry before it has a hash.
pub proof fn law_entries_are_removed_by_hash<X: ExtrinsicCodec, P: TransactionHash<X>, F>(
    pool: P,
    entries: Vec<ExtrinsicOrHash>,
    request: Result<Vec<H256>, AuthorError<X::FormatError, F>>,
)
    requires
        call_ensures(remove_extrinsic::<X, P, F>, (&pool, entries), request),
    ensures
        match request {
            Ok(hashes) => {
                &&& hashes@.len() == entries@.len()
                &&& forall|i: int|
                    0 <= i < entries@.len() ==> removes_by::<X, P>(
                        pool,
                        #[trigger] entries@[i],
                        hashes@[i].0@,
                    )
            },
            Err(error) => exists|i: int|
                {
                    &&& 0 <= i < entries@.len()
                    &&& error matches AuthorError::BadFormat(reason)
                    &&& is_no_extrinsic::<X>(#[trigger] entries@[i], reason)
                    &&& forall|k: int|
                        0 <= k < i ==> (#[trigger] entries@[k] matches ExtrinsicOrHash::Extrinsic(
                            bytes,
                        ) ==> X::spec_decode(bytes.0@) is Ok)
                },
        },
        request is Ok <==> forall|i: int|
            0 <= i < entries@.len() ==> (#[trigger] entries@[i] matches ExtrinsicOrHash::Extrinsic(
                bytes,
            ) ==> X::spec_decode(bytes.0@) is Ok),
{
    let list = entries@;
    match request {
        Ok(hashes) => {
            assert forall|i: int| 0 <= i < list.len() implies removes_by::<X, P>(
                pool,
                #[trigger] list[i],
                hashes@[i].0@,
            ) by {
                assert(entry_hash::<X, P>(pool, list[i]) == Ok::<Seq<u8>, X::FormatError>(
                    hashes@[i].0@,
                ));
            }
        },
        Err(error) => {
            let i = choose|i: int|
                {
                    &&& 0 <= i < list.len()
                    &&& error matches AuthorError::BadFormat(reason)
                    &&& entry_hash::<X, P>(pool, #[trigger] list[i]) == Err::<
                        Seq<u8>,
                        X::FormatError,
                    >(reason)
                    &&& forall|k: int|
                        0 <= k < i ==> entry_hash::<X, P>(pool, #[trigger] list[k]) is Ok
                };
            assert forall|k: int| 0 <= k < i implies (
                #[trigger] list[k] matches ExtrinsicOrHash::Extrinsic(bytes)
                    ==> X::spec_decode(bytes.0@) is Ok) by {
                assert(entry_hash::<X, P>(pool, list[k]) is Ok);
            }
            if let AuthorError::BadFormat(reason) = error {
                assert(is_no_extrinsic::<X>(list[i], reason));
            }
        },
    }
}

} // verus!
