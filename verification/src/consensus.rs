//! Block import as the sealing engine sees it: what is handed to a block
//! import, what comes back, and the engine's own import wrapper and verifier.

use std::collections::HashMap;
use vstd::prelude::*;
use vstd::std_specs::convert::FromSpecImpl;

verus! {

/// The types of the chain that an engine seals blocks for.
///
/// The engine moves values of these types from one service to the next and
/// never looks inside them.
pub trait Chain: Sized {
    /// The hash that identifies a block.
    type Hash;

    /// A block header.
    type Header;

    /// One item of a header's digest.
    type DigestItem;

    /// A transaction of a block's body.
    type Extrinsic;

    /// What is known of a block before it is imported.
    type BlockCheck;

    /// What proposes blocks on top of one given parent.
    type Proposer;

    /// The data that a proposer puts in a block on its own account.
    type InherentData;

    /// The error of a consensus, blockchain or inherent-data service.
    type Failure;

    /// Where the outcome of a sealing command goes.
    type SealSender;

    /// Where the outcome of a finalization command goes.
    type FinalizeSender;
}

/// A proof of finality, in the encoding of whoever made it.
pub type Justification = Vec<u8>;

/// The key of a value that a consensus engine caches along with a block.
pub type CacheKeyId = [u8; 4];

/// Where a block comes from.
#[derive(Clone, Copy, Debug, PartialEq, Eq, Structural)]
pub enum BlockOrigin {
    Genesis,
    NetworkInitialSync,
    NetworkBroadcast,
    ConsensusBroadcast,
    Own,
    File,
}

/// How an imported block affects the choice of the best chain.
#[derive(Clone, Copy, Debug, PartialEq, Eq, Structural)]
pub enum ForkChoiceStrategy {
    /// The longest chain wins.
    LongestChain,
    /// Whether the block is the new best one is given.
    Custom(bool),
}

/// What a block import is asked to import.
pub struct BlockImportParams<C: Chain> {
    pub origin: BlockOrigin,
    pub header: C::Header,
    pub justification: Option<Justification>,
    /// Digest items that are added to the header after sealing.
    pub post_digests: Vec<C::DigestItem>,
    pub body: Option<Vec<C::Extrinsic>>,
    /// Whether the block is final as soon as it is imported.
    pub finalized: bool,
    /// Keys and values that are written along with the block.
    pub auxiliary: Vec<(Vec<u8>, Option<Vec<u8>>)>,
    pub fork_choice: ForkChoiceStrategy,
    pub allow_missing_state: bool,
    pub import_existing: bool,
}

impl<C: Chain> BlockImportParams<C> {
    /// Whether these parameters import the given block at once as a final one:
    /// no digests or auxiliary values are added to it, the longest chain wins,
    /// and neither a missing state nor an existing block is tolerated.
    pub open spec fn finalizes(
        self,
        origin: BlockOrigin,
        header: C::Header,
        justification: Option<Justification>,
        body: Option<Vec<C::Extrinsic>>,
    ) -> bool {
        &&& self.origin == origin
        &&& self.header == header
        &&& self.justification == justification
        &&& self.post_digests@ == Seq::<C::DigestItem>::empty()
        &&& self.body == body
        &&& self.finalized
        &&& self.auxiliary@ == Seq::<(Vec<u8>, Option<Vec<u8>>)>::empty()
        &&& self.fork_choice == ForkChoiceStrategy::LongestChain
        &&& !self.allow_missing_state
        &&& !self.import_existing
    }

    /// Parameters that import the given block at once as a final one.
    pub fn finalizing(
        origin: BlockOrigin,
        header: C::Header,
        justification: Option<Justification>,
        body: Option<Vec<C::Extrinsic>>,
    ) -> (params: Self)
        ensures
            params.finalizes(origin, header, justification, body),
    {
        BlockImportParams {
            origin,
            header,
            justification,
            post_digests: Vec::new(),
            body,
            finalized: true,
            auxiliary: Vec::new(),
            fork_choice: ForkChoiceStrategy::LongestChain,
            allow_missing_state: false,
            import_existing: false,
        }
    }
}

/// What is reported of a block that was imported.
#[derive(Clone, Copy, Debug, PartialEq, Eq, Structural)]
pub struct ImportedAux {
    pub header_only: bool,
    pub clear_justification_requests: bool,
    pub needs_justification: bool,
    pub bad_justification: bool,
    pub needs_finality_proof: bool,
    pub is_new_best: bool,
}

/// What a block import made of a block.
#[derive(Clone, Copy, Debug, PartialEq, Eq, Structural)]
pub enum ImportResult {
    Imported(ImportedAux),
    AlreadyInChain,
    KnownBad,
    UnknownParent,
    MissingState,
}

/// Checks and imports blocks.
///
/// An implementation can say through `may_check` and `may_import` what its
/// calls do; of one that says nothing, nothing is known.
pub trait BlockImport<C: Chain>: Sized {
    type Error;

    /// Whether checking `block` may take this import to `after` and return `outcome`.
    open spec fn may_check(
        self,
        block: C::BlockCheck,
        after: Self,
        outcome: Result<ImportResult, Self::Error>,
    ) -> bool {
        true
    }

    /// Whether importing `block` may take this import to `after` and return `outcome`.
    open spec fn may_import(
        self,
        block: BlockImportParams<C>,
        cache: HashMap<CacheKeyId, Vec<u8>>,
        after: Self,
        outcome: Result<ImportResult, Self::Error>,
    ) -> bool {
        true
    }

    fn check_block(&mut self, block: C::BlockCheck) -> (outcome: Result<
        ImportResult,
        Self::Error,
    >)
        ensures
            old(self).may_check(block, *final(self), outcome),
    ;

    fn import_block(
        &mut self,
        block: BlockImportParams<C>,
        cache: HashMap<CacheKeyId, Vec<u8>>,
    ) -> (outcome: Result<ImportResult, Self::Error>)
        ensures
            old(self).may_import(block, cache, *final(self), outcome),
    ;
}

/// The synchronous block-import worker of the engine.
pub struct ManualSealBlockImport<I> {
    pub inner: I,
}

impl<I> From<I> for ManualSealBlockImport<I> {
    fn from(i: I) -> (import: Self) {
        ManualSealBlockImport { inner: i }
    }
}

impl<I> FromSpecImpl<I> for ManualSealBlockImport<I> {
    open spec fn obeys_from_spec() -> bool {
        true
    }

    open spec fn from_spec(i: I) -> Self {
        ManualSealBlockImport { inner: i }
    }
}

/// The worker hands every block to the import it wraps and reports what that
/// import reports.
impl<C: Chain, I: BlockImport<C>> BlockImport<C> for ManualSealBlockImport<I> {
    type Error = I::Error;

    open spec fn may_check(
        self,
        block: C::BlockCheck,
        after: Self,
        outcome: Result<ImportResult, I::Error>,
    ) -> bool {
        self.inner.may_check(block, after.inner, outcome)
    }

    open spec fn may_import(
        self,
        block: BlockImportParams<C>,
        cache: HashMap<CacheKeyId, Vec<u8>>,
        after: Self,
        outcome: Result<ImportResult, I::Error>,
    ) -> bool {
        self.inner.may_import(block, cache, after.inner, outcome)
    }

    fn check_block(&mut self, block: C::BlockCheck) -> (outcome: Result<ImportResult, I::Error>) {
        self.inner.check_block(block)
    }

    fn import_block(
        &mut self,
        block: BlockImportParams<C>,
        cache: HashMap<CacheKeyId, Vec<u8>>,
    ) -> (outcome: Result<ImportResult, I::Error>) {
        self.inner.import_block(block, cache)
    }
}

/// The verifier for the manual seal engine; instantly finalizes.
#[derive(Clone, Copy, Debug, PartialEq, Eq, Structural)]
pub struct ManualSealVerifier;

impl ManualSealVerifier {
    /// Accepts every block, to be imported at once as a final one, and adds
    /// nothing to the cache.
    pub fn verify<C: Chain>(
        &mut self,
        origin: BlockOrigin,
        header: C::Header,
        justification: Option<Justification>,
        body: Option<Vec<C::Extrinsic>>,
    ) -> (verified: Result<
        (BlockImportParams<C>, Option<Vec<(CacheKeyId, Vec<u8>)>>),
        String,
    >)
        ensures
            verified matches Ok((params, cache)) && params.finalizes(
                origin,
                header,
                justification,
                body,
            ) && cache is None,
    {
        Ok((BlockImportParams::finalizing(origin, header, justification, body), None))
    }
}

/// What an import queue is made of.
pub struct ImportQueue<V, I> {
    /// Verifies each block before it is imported.
    pub verifier: V,
    /// Imports the verified blocks.
    pub block_import: I,
    /// Imports justifications that arrive on their own.
    pub justification_import: Option<I>,
    /// Imports finality proofs that arrive on their own.
    pub finality_proof_import: Option<I>,
}

/// Instantiate the import queue for the manual seal consensus engine.
pub fn import_queue<I>(block_import: I) -> (queue: ImportQueue<ManualSealVerifier, I>)
    ensures
        queue == (ImportQueue {
            verifier: ManualSealVerifier,
            block_import,
            justification_import: None::<I>,
            finality_proof_import: None::<I>,
        }),
{
    ImportQueue {
        verifier: ManualSealVerifier,
        block_import,
        justification_import: None,
        finality_proof_import: None,
    }
}

/// Parameters that import a block at once as a final one hold the block as it
/// is and nothing besides it.
pub proof fn law_finalizing_params<C: Chain>(
    params: BlockImportParams<C>,
    origin: BlockOrigin,
    header: C::Header,
    justification: Option<Justification>,
    body: Option<Vec<C::Extrinsic>>,
)
    ensures
        params.finalizes(origin, header, justification, body) <==> {
            &&& params.origin == origin
            &&& params.header == header
            &&& params.justification == justification
            &&& params.post_digests@.len() == 0
            &&& params.body == body
            &&& params.finalized
            &&& params.auxiliary@.len() == 0
            &&& params.fork_choice == ForkChoiceStrategy::LongestChain
            &&& !params.allow_missing_state
            &&& !params.import_existing
        },
        call_ensures(
            BlockImportParams::<C>::finalizing,
            (origin, header, justification, body),
            params,
        ) ==> params.finalizes(origin, header, justification, body),
{
    if params.post_digests@.len() == 0 && params.auxiliary@.len() == 0 {
        assert(params.post_digests@ =~= Seq::<C::DigestItem>::empty());
        assert(params.auxiliary@ =~= Seq::<(Vec<u8>, Option<Vec<u8>>)>::empty());
    }
}

/// The worker does with a block what the import that it wraps does with it, and
/// nothing else: it may come to an outcome exactly if the wrapped import may, on
/// the same block and the same cache, and changes as the wrapped import does.
pub proof fn law_worker_is_the_wrapped_import<C: Chain, I: BlockImport<C>>(
    worker: ManualSealBlockImport<I>,
    after: ManualSealBlockImport<I>,
    check: C::BlockCheck,
    block: BlockImportParams<C>,
    cache: HashMap<CacheKeyId, Vec<u8>>,
    outcome: Result<ImportResult, I::Error>,
)
    ensures
        worker.may_check(check, after, outcome) <==> worker.inner.may_check(
            check,
            after.inner,
            outcome,
        ),
        worker.may_import(block, cache, after, outcome) <==> worker.inner.may_import(
            block,
            cache,
            after.inner,
            outcome,
        ),
{
}

/// The queue verifies with the verifier of the engine, imports blocks with the
/// import that it is given, and nothing else on its own.
pub proof fn law_queue_imports_blocks_only<I>(
    block_import: I,
    queue: ImportQueue<ManualSealVerifier, I>,
)
    requires
        call_ensures(import_queue::<I>, (block_import,), queue),
    ensures
        queue.block_import == block_import,
        queue.justification_import is None,
        queue.finality_proof_import is None,
{
}

} // verus!
