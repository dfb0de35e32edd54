use manual_seal::author::{submit_extrinsic, AuthorError, Submission};
use manual_seal::consensus::{Chain, ImportResult, ImportedAux};
use manual_seal::engine::{
    instant_seal_command, start, step, Action, EngineState, Event, Reply, Step,
};
use manual_seal::extrinsic::{Extrinsic, FormatError};
use manual_seal::keyring::AccountKeyring;
use manual_seal::primitives::{BlockId, Bytes, H256};
use manual_seal::test_api::{uxt, TestApi};
use manual_seal::transaction_format::ExtrinsicCodec;

/// A remark: up to 255 bytes, written after the byte two and their number.
#[derive(Clone, Debug, PartialEq)]
struct Remark(Vec<u8>);

impl ExtrinsicCodec for Remark {
    type FormatError = &'static str;

    fn decode(bytes: &[u8]) -> Result<(Remark, usize), &'static str> {
        if bytes.len() < 2 || bytes[0] != 2 {
            return Err("no remark");
        }
        let read = 2 + usize::from(bytes[1]);
        if bytes.len() < read {
            return Err("cut off");
        }
        Ok((Remark(bytes[2..read].to_vec()), read))
    }

    fn encode(&self) -> Vec<u8> {
        let mut bytes = vec![2, self.0.len() as u8];
        bytes.extend_from_slice(&self.0);
        bytes
    }
}

type Xt = Extrinsic<Remark>;

struct TransferChain;

impl Chain for TransferChain {
    type Hash = H256;
    type Header = u64;
    type DigestItem = u8;
    type Extrinsic = Xt;
    type BlockCheck = H256;
    type Proposer = Vec<Xt>;
    type InherentData = ();
    type Failure = String;
    type SealSender = ();
    type FinalizeSender = ();
}

/// A transaction that enters the pool is sealed into a block at once.
#[test]
fn instant_seal() {
    let xt: Xt = uxt(AccountKeyring::Alice, 209);
    let at = BlockId::Number(1);
    let submitted: Result<Submission<Xt>, AuthorError<FormatError<&'static str>, String>> =
        submit_extrinsic(&Bytes(xt.encode()), H256([0; 32]));
    assert!(submitted.is_ok());
    let validity = TestApi::default().validate_transaction(&at, &xt);
    assert_eq!(validity.provided, vec![vec![209]]);
    let ready = vec![xt.clone()];

    let imported = ImportedAux {
        header_only: false,
        clear_justification_requests: false,
        needs_justification: false,
        bad_justification: false,
        needs_finality_proof: false,
        is_new_best: true,
    };
    let mut chain: Vec<(u64, Vec<Xt>)> = vec![(0, vec![])];
    let mut event: Event<TransferChain> = Event::Command(Some(instant_seal_command(xt.hash())));
    let mut state: EngineState<TransferChain> = start().state;
    loop {
        let taken: Step<TransferChain> = match step(state, event) {
            Ok(taken) => taken,
            Err(_) => panic!("the engine did not wait for this event"),
        };
        state = taken.state;
        if let Some(reply) = taken.reply {
            assert!(matches!(
                reply,
                Reply::Seal { sender: None, result: Ok(aux) } if aux == imported
            ));
            break;
        }
        event = match taken.action {
            Action::PoolStatus => Event::PoolStatus { ready: ready.len() },
            Action::BestChain => Event::BestChain(Ok(chain[chain.len() - 1].0)),
            Action::InitProposer { parent } => {
                assert_eq!(parent, 0);
                Event::Proposer(Ok(ready.clone()))
            }
            Action::CreateInherentData => Event::InherentData(Ok(())),
            Action::Propose { proposer, .. } => Event::Proposal(Ok((1, proposer))),
            Action::ImportBlock { params, .. } => {
                assert!(params.finalized);
                chain.push((params.header, params.body.unwrap()));
                Event::Import(Ok(ImportResult::Imported(imported)))
            }
            _ => panic!("instant sealing asked for something else"),
        };
    }
    assert!(matches!(state, EngineState::Idle));
    assert_eq!(chain, vec![(0, vec![]), (1, vec![xt])]);
}
