//! The sealing engine as a state machine.
//!
//! The engine takes commands one at a time. It decides what to ask of the
//! services around it (the transaction pool, the chain, the proposer, the
//! block import), gets each answer back as an event, and says what to ask next
//! and what to report to the sender of the command. Asking and reporting are
//! left to whoever drives it.

use std::collections::HashMap;
use vstd::prelude::*;

use crate::consensus::{
    BlockImportParams, BlockOrigin, CacheKeyId, Chain, ImportResult, ImportedAux, Justification,
};

verus! {

/// How long a proposer may take for a block, in seconds.
pub const MAX_PROPOSAL_SECS: u64 = 5;

/// Why a command failed.
#[derive(Debug)]
pub enum SealError<F> {
    /// The block import turned the block down.
    BlockImportError(ImportResult),
    /// There is nothing to put in a block, and an empty one was not asked for.
    EmptyTransactionPool,
    /// The parent that the block was to be built on is not in the chain.
    BlockNotFound,
    /// No proposer could be had, or it proposed no block; what it said of it.
    ProposerError(String),
    /// Choosing the best chain or importing the block failed.
    ConsensusError(F),
    /// The inherent data could not be created.
    InherentError(F),
    /// The chain could not be read or the block could not be finalized.
    BlockchainError(F),
}

/// A command to the engine.
pub enum EngineCommand<C: Chain> {
    /// Propose, seal and import a new block.
    SealNewBlock {
        /// Whether to make a block though no transaction is ready.
        create_empty: bool,
        /// The block to build on; the best one if none is given.
        parent_hash: Option<C::Hash>,
        /// Where the outcome goes, if anyone waits for it.
        sender: Option<C::SealSender>,
    },
    /// Finalize a block of the chain.
    FinalizeBlock {
        hash: C::Hash,
        /// Where the outcome goes, if anyone waits for it.
        sender: Option<C::FinalizeSender>,
    },
}

/// What the engine asks for next.
pub enum Action<C: Chain> {
    /// Wait for the next command.
    NextCommand,
    /// Count the transactions that are ready in the pool.
    PoolStatus,
    /// Look up the header of the block with this hash.
    Header { hash: C::Hash },
    /// Get the header of the best block.
    BestChain,
    /// Get a proposer for blocks on top of this header.
    InitProposer { parent: C::Header },
    /// Create the inherent data.
    CreateInherentData,
    /// Let the proposer propose a block.
    Propose {
        proposer: C::Proposer,
        inherent_data: C::InherentData,
        inherent_digests: Vec<C::DigestItem>,
        max_duration_secs: u64,
    },
    /// Import a block.
    ImportBlock { params: BlockImportParams<C>, cache: HashMap<CacheKeyId, Vec<u8>> },
    /// Finalize a block.
    FinalizeBlock { hash: C::Hash, justification: Option<Justification> },
    /// Nothing: the engine is done for good.
    Stop,
}

/// The answer to an action.
pub enum Event<C: Chain> {
    /// The next command, or that there will be none any more.
    Command(Option<EngineCommand<C>>),
    /// The number of transactions that are ready in the pool.
    PoolStatus { ready: usize },
    /// The header that was looked up, if the chain holds it.
    Header(Result<Option<C::Header>, C::Failure>),
    /// The header of the best block.
    BestChain(Result<C::Header, C::Failure>),
    /// A proposer, or a description of why there is none.
    Proposer(Result<C::Proposer, String>),
    /// The inherent data.
    InherentData(Result<C::InherentData, C::Failure>),
    /// The header and body of the proposed block, or a description of why
    /// there is none.
    Proposal(Result<(C::Header, Vec<C::Extrinsic>), String>),
    /// What the block import made of the block.
    Import(Result<ImportResult, C::Failure>),
    /// Whether the block was finalized.
    Finalized(Result<(), C::Failure>),
}

/// What the engine is waiting for.
pub enum EngineState<C: Chain> {
    /// A command.
    Idle,
    /// The status of the pool.
    CheckingPool {
        create_empty: bool,
        parent_hash: Option<C::Hash>,
        sender: Option<C::SealSender>,
    },
    /// The header of the parent that was asked for.
    FindingParent { sender: Option<C::SealSender> },
    /// The header of the best block.
    ChoosingParent { sender: Option<C::SealSender> },
    /// A proposer.
    InitializingProposer { sender: Option<C::SealSender> },
    /// The inherent data.
    CreatingInherents { proposer: C::Proposer, sender: Option<C::SealSender> },
    /// A proposed block.
    Proposing { sender: Option<C::SealSender> },
    /// The result of the import.
    Importing { sender: Option<C::SealSender> },
    /// The result of the finalization.
    Finalizing { sender: Option<C::FinalizeSender> },
    /// Nothing any more.
    Stopped,
}

/// The outcome of a command, on its way to the command's sender.
pub enum Reply<C: Chain> {
    /// The outcome of a sealing command.
    Seal { sender: Option<C::SealSender>, result: Result<ImportedAux, SealError<C::Failure>> },
    /// The outcome of a finalization command.
    Finalize { sender: Option<C::FinalizeSender>, result: Result<(), SealError<C::Failure>> },
}

/// One step of the engine.
pub struct Step<C: Chain> {
    /// What the engine is waiting for now.
    pub state: EngineState<C>,
    /// What to report, if a command was brought to its end.
    pub reply: Option<Reply<C>>,
    /// What to ask for next.
    pub action: Action<C>,
}

/// Whether `event` is an answer to what the engine waits for in `state`.
pub open spec fn awaits<C: Chain>(state: EngineState<C>, event: Event<C>) -> bool {
    match state {
        EngineState::Idle => event is Command,
        EngineState::CheckingPool { .. } => event is PoolStatus,
        EngineState::FindingParent { .. } => event is Header,
        EngineState::ChoosingParent { .. } => event is BestChain,
        EngineState::InitializingProposer { .. } => event is Proposer,
        EngineState::CreatingInherents { .. } => event is InherentData,
        EngineState::Proposing { .. } => event is Proposal,
        EngineState::Importing { .. } => event is Import,
        EngineState::Finalizing { .. } => event is Finalized,
        EngineState::Stopped => false,
    }
}

/// Why a sealing command that is in `state` has to be given up on `event`, if
/// it has to. Past this point only the import can still fail.
pub open spec fn refusal<C: Chain>(state: EngineState<C>, event: Event<C>) -> Option<
    SealError<C::Failure>,
> {
    match (state, event) {
        (
            EngineState::CheckingPool { create_empty, .. },
            Event::PoolStatus { ready },
        ) if ready == 0 && !create_empty => Some(SealError::EmptyTransactionPool),
        (EngineState::FindingParent { .. }, Event::Header(Err(e))) => Some(
            SealError::BlockchainError(e),
        ),
        (EngineState::FindingParent { .. }, Event::Header(Ok(None))) => Some(SealError::BlockNotFound),
        (EngineState::ChoosingParent { .. }, Event::BestChain(Err(e))) => Some(
            SealError::ConsensusError(e),
        ),
        (EngineState::InitializingProposer { .. }, Event::Proposer(Err(text))) => Some(
            SealError::ProposerError(text),
        ),
        (EngineState::CreatingInherents { .. }, Event::InherentData(Err(e))) => Some(
            SealError::InherentError(e),
        ),
        (EngineState::Proposing { .. }, Event::Proposal(Err(text))) => Some(
            SealError::ProposerError(text),
        ),
        _ => None,
    }
}

/// What the sender of a sealing command learns from the outcome of the import.
pub open spec fn import_report<F>(outcome: Result<ImportResult, F>) -> Result<
    ImportedAux,
    SealError<F>,
> {
    match outcome {
        Ok(ImportResult::Imported(aux)) => Ok(aux),
        Ok(other) => Err(SealError::BlockImportError(other)),
        Err(e) => Err(SealError::ConsensusError(e)),
    }
}

/// What the sender of a finalization command learns from its outcome.
pub open spec fn finalization_report<F>(outcome: Result<(), F>) -> Result<(), SealError<F>> {
    match outcome {
        Ok(()) => Ok(()),
        Err(e) => Err(SealError::BlockchainError(e)),
    }
}

impl<C: Chain> EngineState<C> {
    /// Whether a sealing command is at work that has not reached the import.
    pub open spec fn is_preparing(self) -> bool {
        ||| self is CheckingPool
        ||| self is FindingParent
        ||| self is ChoosingParent
        ||| self is InitializingProposer
        ||| self is CreatingInherents
        ||| self is Proposing
    }

    /// Whether a sealing command is at work.
    pub open spec fn is_sealing(self) -> bool {
        self.is_preparing() || self is Importing
    }

    /// Whether a command is at work.
    pub open spec fn is_busy(self) -> bool {
        self.is_sealing() || self is Finalizing
    }

    /// The sender of the sealing command that is at work.
    pub open spec fn seal_sender(self) -> Option<C::SealSender>
        recommends
            self.is_sealing(),
    {
        match self {
            EngineState::CheckingPool { sender, .. } => sender,
            EngineState::FindingParent { sender } => sender,
            EngineState::ChoosingParent { sender } => sender,
            EngineState::InitializingProposer { sender } => sender,
            EngineState::CreatingInherents { sender, .. } => sender,
            EngineState::Proposing { sender } => sender,
            EngineState::Importing { sender } => sender,
            _ => None,
        }
    }
}

/// What is reported when `event` answers what the engine waits for in `state`.
pub open spec fn reply_on<C: Chain>(state: EngineState<C>, event: Event<C>) -> Option<Reply<C>> {
    match (state, event, refusal(state, event)) {
        (_, _, Some(error)) => Some(
            Reply::Seal { sender: state.seal_sender(), result: Err(error) },
        ),
        (EngineState::Importing { sender }, Event::Import(outcome), _) => Some(
            Reply::Seal { sender, result: import_report(outcome) },
        ),
        (EngineState::Finalizing { sender }, Event::Finalized(outcome), _) => Some(
            Reply::Finalize { sender, result: finalization_report(outcome) },
        ),
        _ => None,
    }
}

/// What the engine waits for next when `event` answers what it waits for in
/// `state`.
///
/// A sealing command that is given up before the import takes the engine with
/// it; whatever becomes of an import or a finalization, the engine goes on.
pub open spec fn state_after<C: Chain>(state: EngineState<C>, event: Event<C>) -> EngineState<C> {
    if refusal(state, event) is Some {
        EngineState::Stopped
    } else {
        match (state, event) {
            (_, Event::Command(None)) => EngineState::Stopped,
            (
                _,
                Event::Command(
                    Some(EngineCommand::SealNewBlock { create_empty, parent_hash, sender }),
                ),
            ) => EngineState::CheckingPool { create_empty, parent_hash, sender },
            (_, Event::Command(Some(EngineCommand::FinalizeBlock { sender, .. }))) =>
                EngineState::Finalizing { sender },
            (EngineState::CheckingPool { parent_hash: Some(_), sender, .. }, _) =>
                EngineState::FindingParent { sender },
            (EngineState::CheckingPool { parent_hash: None, sender, .. }, _) =>
                EngineState::ChoosingParent { sender },
            (EngineState::InitializingProposer { sender }, Event::Proposer(Ok(proposer))) =>
                EngineState::CreatingInherents { proposer, sender },
            (EngineState::FindingParent { sender }, _) =>
                EngineState::InitializingProposer { sender },
            (EngineState::ChoosingParent { sender }, _) =>
                EngineState::InitializingProposer { sender },
            (EngineState::CreatingInherents { sender, .. }, _) =>
                EngineState::Proposing { sender },
            (EngineState::Proposing { sender }, _) => EngineState::Importing { sender },
            _ => EngineState::Idle,
        }
    }
}

/// Whether `action` is what the engine asks for when `event` answers what it
/// waits for in `state`.
pub open spec fn asks_for<C: Chain>(
    state: EngineState<C>,
    event: Event<C>,
    action: Action<C>,
) -> bool {
    match state_after(state, event) {
        EngineState::Idle => action is NextCommand,
        EngineState::Stopped => action is Stop,
        EngineState::CheckingPool { .. } => action is PoolStatus,
        EngineState::FindingParent { .. } => {
            &&& state matches EngineState::CheckingPool { parent_hash: Some(wanted), .. }
            &&& action matches Action::Header { hash }
            &&& hash == wanted
        },
        EngineState::ChoosingParent { .. } => action is BestChain,
        EngineState::InitializingProposer { .. } => {
            &&& action matches Action::InitProposer { parent }
            &&& match event {
                Event::Header(Ok(Some(header))) => parent == header,
                Event::BestChain(Ok(header)) => parent == header,
                _ => false,
            }
        },
        EngineState::CreatingInherents { .. } => action is CreateInherentData,
        EngineState::Proposing { .. } => {
            &&& state matches EngineState::CreatingInherents { proposer: initialized, .. }
            &&& event matches Event::InherentData(Ok(created))
            &&& action matches Action::Propose {
                proposer,
                inherent_data,
                inherent_digests,
                max_duration_secs,
            }
            &&& proposer == initialized
            &&& inherent_data == created
            &&& inherent_digests@ == Seq::<C::DigestItem>::empty()
            &&& max_duration_secs == MAX_PROPOSAL_SECS
        },
        EngineState::Importing { .. } => {
            &&& event matches Event::Proposal(Ok((header, body)))
            &&& action matches Action::ImportBlock { params, cache }
            &&& params.finalizes(BlockOrigin::Own, header, None, Some(body))
            &&& cache@ == Map::<CacheKeyId, Vec<u8>>::empty()
        },
        EngineState::Finalizing { .. } => {
            &&& event matches Event::Command(
                Some(EngineCommand::FinalizeBlock { hash: wanted, .. }),
            )
            &&& action matches Action::FinalizeBlock { hash, justification }
            &&& hash == wanted
            &&& justification is None
        },
    }
}

/// Whether `step` is the step that the engine takes from `state` on `event`.
pub open spec fn is_step<C: Chain>(
    state: EngineState<C>,
    event: Event<C>,
    step: Step<C>,
) -> bool {
    &&& step.state == state_after(state, event)
    &&& step.reply == reply_on(state, event)
    &&& asks_for(state, event, step.action)
}

/// The engine before its first command.
pub fn start<C: Chain>() -> (step: Step<C>)
    ensures
        step.state is Idle,
        step.reply is None,
        step.action is NextCommand,
{
    Step { state: EngineState::Idle, reply: None, action: Action::NextCommand }
}

fn refuse<C: Chain>(sender: Option<C::SealSender>, error: SealError<C::Failure>) -> (step: Step<C>)
    ensures
        step.state is Stopped,
        step.reply == Some(
            Reply::<C>::Seal { sender, result: Err::<ImportedAux, SealError<C::Failure>>(error) },
        ),
        step.action is Stop,
{
    Step {
        state: EngineState::Stopped,
        reply: Some(Reply::Seal { sender, result: Err(error) }),
        action: Action::Stop,
    }
}

fn on_command<C: Chain>(command: Option<EngineCommand<C>>) -> (step: Step<C>)
    ensures
        is_step(EngineState::Idle, Event::Command(command), step),
{
    match command {
        None => Step { state: EngineState::Stopped, reply: None, action: Action::Stop },
        Some(EngineCommand::SealNewBlock { create_empty, parent_hash, sender }) => Step {
            state: EngineState::CheckingPool { create_empty, parent_hash, sender },
            reply: None,
            action: Action::PoolStatus,
        },
        Some(EngineCommand::FinalizeBlock { hash, sender }) => Step {
            state: EngineState::Finalizing { sender },
            reply: None,
            action: Action::FinalizeBlock { hash, justification: None },
        },
    }
}

fn on_import<C: Chain>(
    sender: Option<C::SealSender>,
    outcome: Result<ImportResult, C::Failure>,
) -> (step: Step<C>)
    ensures
        is_step(EngineState::Importing { sender }, Event::Import(outcome), step),
{
    let result = match outcome {
        Ok(ImportResult::Imported(aux)) => Ok(aux),
        Ok(other) => Err(SealError::BlockImportError(other)),
        Err(e) => Err(SealError::ConsensusError(e)),
    };
    Step {
        state: EngineState::Idle,
        reply: Some(Reply::Seal { sender, result }),
        action: Action::NextCommand,
    }
}

fn on_finalized<C: Chain>(
    sender: Option<C::FinalizeSender>,
    outcome: Result<(), C::Failure>,
) -> (step: Step<C>)
    ensures
        is_step(EngineState::Finalizing { sender }, Event::Finalized(outcome), step),
{
    let result = match outcome {
        Ok(()) => Ok(()),
        Err(e) => Err(SealError::BlockchainError(e)),
    };
    Step {
        state: EngineState::Idle,
        reply: Some(Reply::Finalize { sender, result }),
        action: Action::NextCommand,
    }
}

/// Takes the engine one step further, from `state`, on `event`.
///
/// An event that does not answer what the engine waits for is handed back
/// along with the state.
pub fn step<C: Chain>(state: EngineState<C>, event: Event<C>) -> (taken: Result<
    Step<C>,
    (EngineState<C>, Event<C>),
>)
    ensures
        taken is Ok <==> awaits(state, event),
        taken matches Ok(step) ==> is_step(state, event, step),
        taken matches Err(unchanged) ==> unchanged == (state, event),
{
    match (state, event) {
        (EngineState::Idle, Event::Command(command)) => Ok(on_command(command)),
        (
            EngineState::CheckingPool { create_empty, parent_hash, sender },
            Event::PoolStatus { ready },
        ) => {
            if ready == 0 && !create_empty {
                Ok(refuse(sender, SealError::EmptyTransactionPool))
            } else {
                match parent_hash {
                    Some(hash) => Ok(
                        Step {
                            state: EngineState::FindingParent { sender },
                            reply: None,
                            action: Action::Header { hash },
                        },
                    ),
                    None => Ok(
                        Step {
                            state: EngineState::ChoosingParent { sender },
                            reply: None,
                            action: Action::BestChain,
                        },
                    ),
                }
            }
        },
        (EngineState::FindingParent { sender }, Event::Header(found)) => match found {
            Err(e) => Ok(refuse(sender, SealError::BlockchainError(e))),
            Ok(None) => Ok(refuse(sender, SealError::BlockNotFound)),
            Ok(Some(parent)) => Ok(
                Step {
                    state: EngineState::InitializingProposer { sender },
                    reply: None,
                    action: Action::InitProposer { parent },
                },
            ),
        },
        (EngineState::ChoosingParent { sender }, Event::BestChain(best)) => match best {
            Err(e) => Ok(refuse(sender, SealError::ConsensusError(e))),
            Ok(parent) => Ok(
                Step {
                    state: EngineState::InitializingProposer { sender },
                    reply: None,
                    action: Action::InitProposer { parent },
                },
            ),
        },
        (EngineState::InitializingProposer { sender }, Event::Proposer(initialized)) => match initialized {
            Err(text) => Ok(refuse(sender, SealError::ProposerError(text))),
            Ok(proposer) => Ok(
                Step {
                    state: EngineState::CreatingInherents { proposer, sender },
                    reply: None,
                    action: Action::CreateInherentData,
                },
            ),
        },
        (
            EngineState::CreatingInherents { proposer, sender },
            Event::InherentData(created),
        ) => match created {
            Err(e) => Ok(refuse(sender, SealError::InherentError(e))),
            Ok(inherent_data) => Ok(
                Step {
                    state: EngineState::Proposing { sender },
                    reply: None,
                    action: Action::Propose {
                        proposer,
                        inherent_data,
                        inherent_digests: Vec::new(),
                        max_duration_secs: MAX_PROPOSAL_SECS,
                    },
                },
            ),
        },
        (EngineState::Proposing { sender }, Event::Proposal(proposal)) => match proposal {
            Err(text) => Ok(refuse(sender, SealError::ProposerError(text))),
            Ok((header, body)) => Ok(
                Step {
                    state: EngineState::Importing { sender },
                    reply: None,
                    action: Action::ImportBlock {
                        params: BlockImportParams::finalizing(
                            BlockOrigin::Own,
                            header,
                            None,
                            Some(body),
                        ),
                        cache: HashMap::new(),
                    },
                },
            ),
        },
        (EngineState::Importing { sender }, Event::Import(outcome)) => Ok(
            on_import(sender, outcome),
        ),
        (EngineState::Finalizing { sender }, Event::Finalized(outcome)) => Ok(
            on_finalized(sender, outcome),
        ),
        (state, event) => Err((state, event)),
    }
}

/// The command of instant sealing: build on the best block, never an empty one,
/// and report to nobody.
pub open spec fn instant_command<C: Chain>() -> EngineCommand<C> {
    EngineCommand::SealNewBlock { create_empty: false, parent_hash: None, sender: None }
}

/// The command that instant sealing gives for a notification that a transaction
/// entered the pool, whatever the notification says.
pub fn instant_seal_command<C: Chain, N>(_notification: N) -> (command: EngineCommand<C>)
    ensures
        command == instant_command::<C>(),
{
    EngineCommand::SealNewBlock { create_empty: false, parent_hash: None, sender: None }
}

} // verus!
