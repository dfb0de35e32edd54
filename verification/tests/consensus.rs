use std::collections::HashMap;

use manual_seal::consensus::{
    import_queue, BlockImport, BlockImportParams, BlockOrigin, CacheKeyId, Chain,
    ForkChoiceStrategy, ImportResult, ManualSealBlockImport, ManualSealVerifier,
};

struct Dev;

impl Chain for Dev {
    type Hash = u64;
    type Header = u32;
    type DigestItem = u8;
    type Extrinsic = u32;
    type BlockCheck = u64;
    type Proposer = ();
    type InherentData = ();
    type Failure = ();
    type SealSender = ();
    type FinalizeSender = ();
}

/// An import that counts its calls and turns down the header 13.
struct Counting {
    checked: Vec<u64>,
    imported: Vec<u32>,
    cached: usize,
}

impl BlockImport<Dev> for Counting {
    type Error = String;

    fn check_block(&mut self, block: u64) -> Result<ImportResult, String> {
        self.checked.push(block);
        Ok(ImportResult::AlreadyInChain)
    }

    fn import_block(
        &mut self,
        block: BlockImportParams<Dev>,
        cache: HashMap<CacheKeyId, Vec<u8>>,
    ) -> Result<ImportResult, String> {
        self.cached += cache.len();
        self.imported.push(block.header);
        if block.header == 13 {
            Err(String::from("unlucky"))
        } else {
            Ok(ImportResult::UnknownParent)
        }
    }
}

#[test]
fn worker_hands_blocks_to_the_wrapped_import() {
    let inner = Counting { checked: vec![], imported: vec![], cached: 0 };
    let mut worker: ManualSealBlockImport<Counting> = ManualSealBlockImport::from(inner);
    assert_eq!(worker.check_block(3), Ok(ImportResult::AlreadyInChain));
    let mut cache = HashMap::new();
    cache.insert([1u8, 2, 3, 4], vec![5u8]);
    let params = BlockImportParams::finalizing(BlockOrigin::File, 12, None, None);
    assert_eq!(worker.import_block(params, cache), Ok(ImportResult::UnknownParent));
    let params = BlockImportParams::finalizing(BlockOrigin::File, 13, None, None);
    assert_eq!(worker.import_block(params, HashMap::new()), Err(String::from("unlucky")));
    assert_eq!(worker.inner.checked, vec![3]);
    assert_eq!(worker.inner.imported, vec![12, 13]);
    assert_eq!(worker.inner.cached, 1);
}

#[test]
fn verifier_finalizes_every_block_at_once() {
    let verified = ManualSealVerifier.verify::<Dev>(
        BlockOrigin::NetworkBroadcast,
        77,
        Some(vec![1, 2]),
        Some(vec![8, 9]),
    );
    match verified {
        Ok((params, cache)) => {
            assert!(cache.is_none());
            assert_eq!(params.origin, BlockOrigin::NetworkBroadcast);
            assert_eq!(params.header, 77);
            assert_eq!(params.justification, Some(vec![1, 2]));
            assert!(params.post_digests.is_empty());
            assert_eq!(params.body, Some(vec![8, 9]));
            assert!(params.finalized);
            assert!(params.auxiliary.is_empty());
            assert_eq!(params.fork_choice, ForkChoiceStrategy::LongestChain);
            assert!(!params.allow_missing_state);
            assert!(!params.import_existing);
        }
        Err(_) => panic!("a block was turned down"),
    }
}

#[test]
fn import_queue_imports_blocks_only() {
    let queue = import_queue("import");
    assert_eq!(queue.verifier, ManualSealVerifier);
    assert_eq!(queue.block_import, "import");
    assert!(queue.justification_import.is_none());
    assert!(queue.finality_proof_import.is_none());
}
