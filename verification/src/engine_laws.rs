//! What holds of every run of the sealing engine, whatever the services around
//! it answer.

use vstd::prelude::*;

use crate::consensus::{
    BlockImportParams, BlockOrigin, CacheKeyId, Chain, ForkChoiceStrategy, ImportResult,
    ImportedAux,
};
use crate::engine::{
    awaits, finalization_report, import_report, instant_command, instant_seal_command, is_step,
    refusal, start, state_after, step, Action, EngineCommand, EngineState, Event, Reply, SealError,
    Step, MAX_PROPOSAL_SECS,
};

verus! {

/// The state that the engine is in before the `i`th step of `run`, if the run
/// sets out from `first`.
pub open spec fn state_before<C: Chain>(
    first: EngineState<C>,
    run: Seq<(Event<C>, Step<C>)>,
    i: int,
) -> EngineState<C> {
    if i <= 0 {
        first
    } else {
        run[i - 1].1.state
    }
}

/// Whether the engine can take these steps on these events, one after the
/// other, when it sets out from `first`.
pub open spec fn is_run<C: Chain>(
    first: EngineState<C>,
    run: Seq<(Event<C>, Step<C>)>,
) -> bool {
    forall|i: int|
        #![trigger run[i]]
        0 <= i < run.len() ==> {
            &&& awaits(state_before(first, run, i), run[i].0)
            &&& is_step(state_before(first, run, i), run[i].0, run[i].1)
        }
}

/// Whether `event` brings a command.
pub open spec fn is_command<C: Chain>(event: Event<C>) -> bool {
    event matches Event::Command(Some(_))
}

/// The number of commands that a run takes.
pub open spec fn commands<C: Chain>(run: Seq<(Event<C>, Step<C>)>) -> nat
    decreases run.len(),
{
    if run.len() == 0 {
        0
    } else {
        commands(run.drop_last()) + if is_command(run.last().0) {
            1nat
        } else {
            0nat
        }
    }
}

/// The number of replies that a run gives.
pub open spec fn replies<C: Chain>(run: Seq<(Event<C>, Step<C>)>) -> nat
    decreases run.len(),
{
    if run.len() == 0 {
        0
    } else {
        replies(run.drop_last()) + if run.last().1.reply is Some {
            1nat
        } else {
            0nat
        }
    }
}

/// Whether `reply` answers `command`: it is of the command's kind and goes to
/// the command's sender.
pub open spec fn answers<C: Chain>(reply: Reply<C>, command: EngineCommand<C>) -> bool {
    match (reply, command) {
        (
            Reply::Seal { sender, .. },
            EngineCommand::SealNewBlock { sender: expected, .. },
        ) => sender == expected,
        (
            Reply::Finalize { sender, .. },
            EngineCommand::FinalizeBlock { sender: expected, .. },
        ) => sender == expected,
        _ => false,
    }
}

/// An upper bound on the answers that the command at work still needs.
pub open spec fn answers_left<C: Chain>(state: EngineState<C>) -> nat {
    match state {
        EngineState::CheckingPool { .. } => 6,
        EngineState::FindingParent { .. } => 5,
        EngineState::ChoosingParent { .. } => 5,
        EngineState::InitializingProposer { .. } => 4,
        EngineState::CreatingInherents { .. } => 3,
        EngineState::Proposing { .. } => 2,
        EngineState::Importing { .. } => 1,
        EngineState::Finalizing { .. } => 1,
        EngineState::Idle => 0,
        EngineState::Stopped => 0,
    }
}

/// Whether two requests import the same block in the same way.
pub open spec fn import_the_same<C: Chain>(
    one: BlockImportParams<C>,
    other: BlockImportParams<C>,
) -> bool {
    &&& one.origin == other.origin
    &&& one.header == other.header
    &&& one.justification == other.justification
    &&& one.post_digests@ == other.post_digests@
    &&& one.body == other.body
    &&& one.finalized == other.finalized
    &&& one.auxiliary@ == other.auxiliary@
    &&& one.fork_choice == other.fork_choice
    &&& one.allow_missing_state == other.allow_missing_state
    &&& one.import_existing == other.import_existing
}

/// Whether two actions ask for the same.
pub open spec fn ask_the_same<C: Chain>(one: Action<C>, other: Action<C>) -> bool {
    match (one, other) {
        (
            Action::Propose { proposer, inherent_data, inherent_digests, max_duration_secs },
            Action::Propose {
                proposer: other_proposer,
                inherent_data: other_data,
                inherent_digests: other_digests,
                max_duration_secs: other_secs,
            },
        ) => {
            &&& proposer == other_proposer
            &&& inherent_data == other_data
            &&& inherent_digests@ == other_digests@
            &&& max_duration_secs == other_secs
        },
        (
            Action::ImportBlock { params, cache },
            Action::ImportBlock { params: other_params, cache: other_cache },
        ) => import_the_same(params, other_params) && cache@ == other_cache@,
        _ => one == other,
    }
}

/// The engine leaves nothing open: the same event in the same state leads to
/// the same state, the same report and the same request.
pub proof fn law_step_is_determined<C: Chain>(
    state: EngineState<C>,
    event: Event<C>,
    one: Step<C>,
    other: Step<C>,
)
    requires
        is_step(state, event, one),
        is_step(state, event, other),
    ensures
        one.state == other.state,
        one.reply == other.reply,
        ask_the_same(one.action, other.action),
{
}

/// What is left of a run without its last step is a run to where the last step
/// was taken.
proof fn lemma_run_without_last_step<C: Chain>(
    first: EngineState<C>,
    run: Seq<(Event<C>, Step<C>)>,
)
    requires
        is_run(first, run),
        run.len() > 0,
    ensures
        is_run(first, run.drop_last()),
        state_before(first, run.drop_last(), run.len() - 1) == state_before(
            first,
            run,
            run.len() - 1,
        ),
        awaits(state_before(first, run, run.len() - 1), run.last().0),
        is_step(state_before(first, run, run.len() - 1), run.last().0, run.last().1),
{
    let before = run.drop_last();
    assert forall|i: int| #![trigger before[i]] 0 <= i < before.len() implies {
        &&& awaits(state_before(first, before, i), before[i].0)
        &&& is_step(state_before(first, before, i), before[i].0, before[i].1)
    } by {
        assert(before[i] == run[i]);
    }
    assert(run[run.len() - 1] == run.last());
}

/// A command is answered exactly once: the replies of a run are as many as the
/// commands that it took, less the one that may still be at work.
pub proof fn law_one_reply_per_command<C: Chain>(run: Seq<(Event<C>, Step<C>)>)
    requires
        is_run(EngineState::Idle, run),
    ensures
        commands(run) == replies(run) + if state_before(
            EngineState::Idle,
            run,
            run.len() as int,
        ).is_busy() {
            1nat
        } else {
            0nat
        },
    decreases run.len(),
{
    if run.len() > 0 {
        lemma_run_without_last_step(EngineState::Idle, run);
        law_one_reply_per_command(run.drop_last());
    }
}

/// Between a command and the next one, the engine works on that command: as
/// long as it is busy, it is with a command of this kind and this sender.
proof fn lemma_works_on_latest_command<C: Chain>(
    first: EngineState<C>,
    run: Seq<(Event<C>, Step<C>)>,
    c: int,
    i: int,
    command: EngineCommand<C>,
)
    requires
        is_run(first, run),
        0 <= c < i <= run.len(),
        run[c].0 == Event::Command(Some(command)),
        forall|k: int| c < k < i ==> !is_command(#[trigger] run[k].0),
    ensures
        state_before(first, run, i).is_sealing() ==> {
            &&& command matches EngineCommand::SealNewBlock { sender, .. }
            &&& state_before(first, run, i).seal_sender() == sender
        },
        state_before(first, run, i) matches EngineState::Finalizing { sender: held } ==> {
            &&& command matches EngineCommand::FinalizeBlock { sender, .. }
            &&& held == sender
        },
    decreases i,
{
    assert(is_step(state_before(first, run, i - 1), run[i - 1].0, run[i - 1].1));
    if i > c + 1 {
        lemma_works_on_latest_command(first, run, c, i - 1, command);
        assert(!is_command(run[i - 1].0));
    }
}

/// A reply goes to the sender of the command that it answers: it answers the
/// latest command that was taken, and no other.
pub proof fn law_reply_answers_latest_command<C: Chain>(
    first: EngineState<C>,
    run: Seq<(Event<C>, Step<C>)>,
    c: int,
    i: int,
    command: EngineCommand<C>,
    reply: Reply<C>,
)
    requires
        is_run(first, run),
        0 <= c < i < run.len(),
        run[c].0 == Event::Command(Some(command)),
        forall|k: int| c < k <= i ==> !is_command(#[trigger] run[k].0),
        run[i].1.reply == Some(reply),
    ensures
        answers(reply, command),
{
    lemma_works_on_latest_command(first, run, c, i, command);
    assert(is_step(state_before(first, run, i), run[i].0, run[i].1));
}

/// The engine stops for two reasons only: no command will come any more, or a
/// sealing command was given up before its block was imported.
pub proof fn law_stops_on_refusal_or_end<C: Chain>(
    first: EngineState<C>,
    run: Seq<(Event<C>, Step<C>)>,
    i: int,
)
    requires
        is_run(first, run),
        0 <= i < run.len(),
    ensures
        run[i].1.state is Stopped <==> (run[i].0 matches Event::Command(None)) || refusal(
            state_before(first, run, i),
            run[i].0,
        ) is Some,
        run[i].1.state is Stopped <==> run[i].1.action is Stop,
{
    assert(awaits(state_before(first, run, i), run[i].0));
}

/// Once the engine has stopped, it takes no further step.
pub proof fn law_stopped_for_good<C: Chain>(
    first: EngineState<C>,
    run: Seq<(Event<C>, Step<C>)>,
    i: int,
)
    requires
        is_run(first, run),
        0 <= i < run.len(),
        run[i].1.state is Stopped,
    ensures
        run.len() == i + 1,
{
    if i + 1 < run.len() {
        assert(awaits(state_before(first, run, i + 1), run[i + 1].0));
    }
}

/// A sealing command that is given up before the import is answered with the
/// reason, to the sender that the engine holds for it, and ends the engine.
pub proof fn law_refused_seal_is_answered<C: Chain>(
    first: EngineState<C>,
    run: Seq<(Event<C>, Step<C>)>,
    i: int,
    error: SealError<C::Failure>,
)
    requires
        is_run(first, run),
        0 <= i < run.len(),
        refusal(state_before(first, run, i), run[i].0) == Some(error),
    ensures
        run[i].1.reply == Some(
            Reply::<C>::Seal {
                sender: state_before(first, run, i).seal_sender(),
                result: Err::<ImportedAux, SealError<C::Failure>>(error),
            },
        ),
        run[i].1.action is Stop,
{
    assert(is_step(state_before(first, run, i), run[i].0, run[i].1));
}

/// Whatever becomes of an import or a finalization, it is reported and the
/// engine takes the next command.
pub proof fn law_goes_on_after_import_or_finalization<C: Chain>(
    first: EngineState<C>,
    run: Seq<(Event<C>, Step<C>)>,
    i: int,
)
    requires
        is_run(first, run),
        0 <= i < run.len(),
        run[i].0 is Import || run[i].0 is Finalized,
    ensures
        run[i].1.state is Idle,
        run[i].1.action is NextCommand,
        run[i].0 matches Event::Import(outcome) ==> {
            &&& run[i].1.reply matches Some(Reply::Seal { result, .. })
            &&& result == import_report(outcome)
        },
        run[i].0 matches Event::Finalized(outcome) ==> {
            &&& run[i].1.reply matches Some(Reply::Finalize { result, .. })
            &&& result == finalization_report(outcome)
        },
{
    assert(awaits(state_before(first, run, i), run[i].0));
}

/// Every answer brings the command at work nearer to its reply.
proof fn lemma_answers_left_decrease<C: Chain>(state: EngineState<C>, event: Event<C>)
    requires
        awaits(state, event),
        state.is_busy(),
    ensures
        answers_left(state_after(state, event)) < answers_left(state),
{
}

/// No command keeps the engine busy for ever: while a run works on one
/// command, it takes no more steps than the command has answers left.
pub proof fn law_command_is_bounded<C: Chain>(
    first: EngineState<C>,
    run: Seq<(Event<C>, Step<C>)>,
)
    requires
        is_run(first, run),
        forall|i: int|
            0 <= i < run.len() ==> #[trigger] state_before(first, run, i).is_busy(),
    ensures
        run.len() + answers_left(state_before(first, run, run.len() as int)) <= answers_left(
            first,
        ),
        run.len() <= 6,
    decreases run.len(),
{
    if run.len() > 0 {
        let before = run.drop_last();
        let last = run.len() - 1;
        assert forall|i: int| 0 <= i <= before.len() implies state_before(first, before, i)
            == state_before(first, run, i) by {}
        assert forall|i: int| 0 <= i < before.len() implies #[trigger] state_before(
            first,
            before,
            i,
        ).is_busy() by {
            assert(state_before(first, run, i).is_busy());
        }
        lemma_run_without_last_step(first, run);
        law_command_is_bounded(first, before);
        assert(state_before(first, run, last).is_busy());
        lemma_answers_left_decrease(state_before(first, run, last), run[last].0);
    }
}

/// Only blocks that the proposer just proposed are imported, each as the
/// engine's own and final at once, with nothing added to it.
pub proof fn law_imports_only_proposed_blocks<C: Chain>(
    first: EngineState<C>,
    run: Seq<(Event<C>, Step<C>)>,
    i: int,
)
    requires
        is_run(first, run),
        0 <= i < run.len(),
        run[i].1.action is ImportBlock,
    ensures
        run[i].0 matches Event::Proposal(Ok((header, body))) && run[i].1.action matches Action::ImportBlock {
            params,
            cache,
        } && params.finalizes(BlockOrigin::Own, header, None, Some(body)) && cache@ == Map::<
            CacheKeyId,
            Vec<u8>,
        >::empty(),
{
    assert(awaits(state_before(first, run, i), run[i].0));
    assert(is_step(state_before(first, run, i), run[i].0, run[i].1));
}

/// Whether the six steps of `run` that end with the `i`th take a sealing command
/// from its arrival to the import of a block: something was ready or an empty
/// block was asked for, the parent is the one that was asked for or else the
/// best block, the proposer for that parent proposed the block, with the
/// inherent data that was created for it, and that block is to be imported.
pub open spec fn prepares_block<C: Chain>(
    run: Seq<(Event<C>, Step<C>)>,
    i: int,
    sender: Option<C::SealSender>,
) -> bool {
    &&& i >= 5
    &&& run[i - 5].0 matches Event::Command(
        Some(EngineCommand::SealNewBlock { create_empty, parent_hash, sender: waiting }),
    )
    &&& waiting == sender
    &&& run[i - 5].1.action is PoolStatus
    &&& run[i - 4].0 matches Event::PoolStatus { ready }
    &&& (ready > 0 || create_empty)
    &&& match parent_hash {
        Some(wanted) => {
            &&& run[i - 4].1.action matches Action::Header { hash }
            &&& hash == wanted
            &&& run[i - 3].0 matches Event::Header(Ok(Some(header)))
            &&& run[i - 3].1.action matches Action::InitProposer { parent }
            &&& parent == header
        },
        None => {
            &&& run[i - 4].1.action is BestChain
            &&& run[i - 3].0 matches Event::BestChain(Ok(header))
            &&& run[i - 3].1.action matches Action::InitProposer { parent }
            &&& parent == header
        },
    }
    &&& run[i - 2].0 matches Event::Proposer(Ok(initialized))
    &&& run[i - 2].1.action is CreateInherentData
    &&& run[i - 1].0 matches Event::InherentData(Ok(created))
    &&& run[i - 1].1.action matches Action::Propose {
        proposer,
        inherent_data,
        inherent_digests,
        max_duration_secs,
    }
    &&& proposer == initialized
    &&& inherent_data == created
    &&& inherent_digests@.len() == 0
    &&& max_duration_secs == MAX_PROPOSAL_SECS
    &&& run[i].0 matches Event::Proposal(Ok((header, body)))
    &&& run[i].1.action matches Action::ImportBlock { params, cache }
    &&& params.finalizes(BlockOrigin::Own, header, None, Some(body))
    &&& cache@ == Map::<CacheKeyId, Vec<u8>>::empty()
}

/// Whether the seven steps of `run` that end with the `i`th take a sealing
/// command from its arrival to a block that was imported.
pub open spec fn seals_block<C: Chain>(
    run: Seq<(Event<C>, Step<C>)>,
    i: int,
    sender: Option<C::SealSender>,
    aux: ImportedAux,
) -> bool {
    &&& prepares_block(run, i - 1, sender)
    &&& run[i].0 matches Event::Import(Ok(ImportResult::Imported(reported)))
    &&& reported == aux
}

/// A block is imported exactly at the end of all the stages that come before
/// the import, whatever the import will make of it; it is then imported for the
/// sender of the command that was taken through them.
pub proof fn law_import_means_prepared<C: Chain>(
    run: Seq<(Event<C>, Step<C>)>,
    i: int,
    sender: Option<C::SealSender>,
)
    requires
        is_run(EngineState::Idle, run),
        0 <= i < run.len(),
    ensures
        run[i].1.action is ImportBlock && run[i].1.state.seal_sender() == sender
            <==> prepares_block(run, i, sender),
        run[i].1.action is ImportBlock <==> run[i].1.state is Importing,
{
    let idle = EngineState::<C>::Idle;
    assert(awaits(state_before(idle, run, i), run[i].0));
    if run[i].1.action is ImportBlock {
        assert(run[i - 1].1.state is Proposing);
        assert(awaits(state_before(idle, run, i - 1), run[i - 1].0));
        assert(run[i - 2].1.state is CreatingInherents);
        assert(awaits(state_before(idle, run, i - 2), run[i - 2].0));
        assert(run[i - 3].1.state is InitializingProposer);
        assert(awaits(state_before(idle, run, i - 3), run[i - 3].0));
        assert(run[i - 4].1.state is FindingParent || run[i - 4].1.state is ChoosingParent);
        assert(awaits(state_before(idle, run, i - 4), run[i - 4].0));
        assert(run[i - 5].1.state is CheckingPool);
        assert(awaits(state_before(idle, run, i - 5), run[i - 5].0));
    }
    if prepares_block(run, i, sender) {
        assert(awaits(state_before(idle, run, i - 5), run[i - 5].0));
        assert(run[i - 5].1.state is CheckingPool);
        assert(awaits(state_before(idle, run, i - 4), run[i - 4].0));
        assert(run[i - 4].1.state is FindingParent || run[i - 4].1.state is ChoosingParent);
        assert(awaits(state_before(idle, run, i - 3), run[i - 3].0));
        assert(run[i - 3].1.state is InitializingProposer);
        assert(awaits(state_before(idle, run, i - 2), run[i - 2].0));
        assert(run[i - 2].1.state is CreatingInherents);
        assert(awaits(state_before(idle, run, i - 1), run[i - 1].0));
        assert(run[i - 1].1.state is Proposing);
    }
}

/// A sender is told that a block was sealed exactly if the engine took the
/// sender's command through all of its stages and the block was imported.
pub proof fn law_success_means_sealed<C: Chain>(
    run: Seq<(Event<C>, Step<C>)>,
    i: int,
    sender: Option<C::SealSender>,
    aux: ImportedAux,
)
    requires
        is_run(EngineState::Idle, run),
        0 <= i < run.len(),
    ensures
        run[i].1.reply == Some(
            Reply::<C>::Seal { sender, result: Ok::<ImportedAux, SealError<C::Failure>>(aux) },
        ) <==> seals_block(run, i, sender, aux),
{
    assert(awaits(state_before(EngineState::Idle, run, i), run[i].0));
    if i > 0 {
        law_import_means_prepared(run, i - 1, sender);
    }
}

/// A sender is told that a block was finalized exactly if the finalization of
/// the very block that the sender named was asked for and went well.
pub proof fn law_success_means_finalized<C: Chain>(
    run: Seq<(Event<C>, Step<C>)>,
    i: int,
    sender: Option<C::FinalizeSender>,
)
    requires
        is_run(EngineState::Idle, run),
        0 <= i < run.len(),
    ensures
        run[i].1.reply == Some(
            Reply::<C>::Finalize { sender, result: Ok::<(), SealError<C::Failure>>(()) },
        ) <==> {
            &&& i >= 1
            &&& run[i - 1].0 matches Event::Command(
                Some(EngineCommand::FinalizeBlock { hash: wanted, sender: waiting }),
            )
            &&& waiting == sender
            &&& run[i - 1].1.action matches Action::FinalizeBlock { hash, justification }
            &&& hash == wanted
            &&& justification is None
            &&& run[i].0 matches Event::Finalized(Ok(()))
        },
{
    let idle = EngineState::<C>::Idle;
    assert(awaits(state_before(idle, run, i), run[i].0));
    if i >= 1 {
        assert(awaits(state_before(idle, run, i - 1), run[i - 1].0));
    }
}

/// The number of sealing commands that a run takes.
pub open spec fn seal_commands<C: Chain>(run: Seq<(Event<C>, Step<C>)>) -> nat
    decreases run.len(),
{
    if run.len() == 0 {
        0
    } else {
        seal_commands(run.drop_last()) + if run.last().0 matches Event::Command(
            Some(EngineCommand::SealNewBlock { .. }),
        ) {
            1nat
        } else {
            0nat
        }
    }
}

/// The number of blocks that a run asks to import.
pub open spec fn import_requests<C: Chain>(run: Seq<(Event<C>, Step<C>)>) -> nat
    decreases run.len(),
{
    if run.len() == 0 {
        0
    } else {
        import_requests(run.drop_last()) + if run.last().1.action is ImportBlock {
            1nat
        } else {
            0nat
        }
    }
}

/// The number of sealing commands that a run gives up before the import: they
/// are answered, and end the engine.
pub open spec fn early_failures<C: Chain>(run: Seq<(Event<C>, Step<C>)>) -> nat
    decreases run.len(),
{
    if run.len() == 0 {
        0
    } else {
        early_failures(run.drop_last()) + if run.last().1.reply is Some
            && run.last().1.action is Stop {
            1nat
        } else {
            0nat
        }
    }
}

/// The hashes that the finalization commands of a run name, in their order.
pub open spec fn hashes_to_finalize<C: Chain>(run: Seq<(Event<C>, Step<C>)>) -> Seq<C::Hash>
    decreases run.len(),
{
    if run.len() == 0 {
        seq![]
    } else {
        match run.last().0 {
            Event::Command(Some(EngineCommand::FinalizeBlock { hash, .. })) => hashes_to_finalize(
                run.drop_last(),
            ).push(hash),
            _ => hashes_to_finalize(run.drop_last()),
        }
    }
}

/// The hashes of the blocks that a run asks to finalize, in their order.
pub open spec fn finalization_requests<C: Chain>(run: Seq<(Event<C>, Step<C>)>) -> Seq<C::Hash>
    decreases run.len(),
{
    if run.len() == 0 {
        seq![]
    } else {
        match run.last().1.action {
            Action::FinalizeBlock { hash, .. } => finalization_requests(run.drop_last()).push(
                hash,
            ),
            _ => finalization_requests(run.drop_last()),
        }
    }
}

/// The engine asks for what it is told to and for nothing else. It asks to
/// finalize the very blocks that the finalization commands name, in their
/// order. It asks to import one block for each sealing command, but for the one
/// that may still be on its way to the import, and the one, the last of the
/// run, that may have failed before it.
pub proof fn law_requests_follow_commands<C: Chain>(run: Seq<(Event<C>, Step<C>)>)
    requires
        is_run(EngineState::Idle, run),
    ensures
        ({
            let now = state_before(EngineState::Idle, run, run.len() as int);
            &&& finalization_requests(run) == hashes_to_finalize(run)
            &&& import_requests(run) + early_failures(run) + (if now.is_preparing() {
                1nat
            } else {
                0nat
            }) == seal_commands(run)
            &&& now is Idle || now is Stopped ==> import_requests(run) == seal_commands(run)
                - early_failures(run)
            &&& early_failures(run) <= 1
            &&& early_failures(run) == 1 ==> now is Stopped
        }),
    decreases run.len(),
{
    if run.len() > 0 {
        lemma_run_without_last_step(EngineState::Idle, run);
        law_requests_follow_commands(run.drop_last());
    }
}

/// Whether `event`, if it brings a command, brings the one of instant sealing.
pub open spec fn is_instant<C: Chain>(event: Event<C>) -> bool {
    event matches Event::Command(Some(command)) ==> command == instant_command::<C>()
}

/// Instant sealing builds on best blocks only, never on an empty pool, never
/// finalizes a block on its own, and reports to nobody.
pub proof fn law_instant_sealing<C: Chain>(run: Seq<(Event<C>, Step<C>)>, i: int)
    requires
        is_run(EngineState::Idle, run),
        0 <= i < run.len(),
        forall|k: int| 0 <= k <= i ==> is_instant(#[trigger] run[k].0),
    ensures
        !(run[i].1.action is Header),
        !(run[i].1.action is FinalizeBlock),
        run[i].0 matches Event::PoolStatus { ready } ==> (ready == 0 <==> run[i].1.action is Stop),
        run[i].1.reply matches Some(reply) ==> reply matches Reply::Seal { sender: None, .. },
        run[i].1.state.is_sealing() ==> run[i].1.state.seal_sender() is None,
        run[i].1.state matches EngineState::CheckingPool { create_empty, parent_hash, .. } ==> {
            &&& !create_empty
            &&& parent_hash is None
        },
        !(run[i].1.state is Finalizing),
        !(run[i].1.state is FindingParent),
    decreases i,
{
    if i > 0 {
        law_instant_sealing(run, i - 1);
    }
    assert(is_instant(run[i].0));
    assert(awaits(state_before(EngineState::Idle, run, i), run[i].0));
}

/// Whether a run is one of manual sealing with these commands in the channel:
/// it takes them one after the other, and learns that there are no more once
/// all are taken.
pub open spec fn seals_manually<C: Chain>(
    channel: Seq<EngineCommand<C>>,
    run: Seq<(Event<C>, Step<C>)>,
) -> bool {
    &&& is_run(EngineState::Idle, run)
    &&& forall|i: int|
        #![trigger run[i]]
        0 <= i < run.len() ==> {
            let taken = commands(run.take(i)) as int;
            run[i].0 matches Event::Command(next) ==> next == if taken < channel.len() {
                Some(channel[taken])
            } else {
                None
            }
        }
}

/// Whether a run is one of instant sealing on these notifications: for each of
/// them it takes the command of instant sealing, and it learns that there are
/// no more once all are taken.
pub open spec fn seals_instantly<C: Chain, N>(
    notifications: Seq<N>,
    run: Seq<(Event<C>, Step<C>)>,
) -> bool {
    &&& is_run(EngineState::Idle, run)
    &&& forall|i: int|
        #![trigger run[i]]
        0 <= i < run.len() ==> match run[i].0 {
            Event::Command(Some(command)) => {
                &&& commands(run.take(i)) < notifications.len()
                &&& command == instant_command::<C>()
            },
            Event::Command(None) => commands(run.take(i)) >= notifications.len(),
            _ => true,
        }
}

/// Instant sealing is manual sealing with one fixed command for each
/// notification: both have the same runs, whatever the notifications say.
pub proof fn law_instant_is_manual_sealing<C: Chain, N>(
    notifications: Seq<N>,
    run: Seq<(Event<C>, Step<C>)>,
)
    ensures
        seals_instantly(notifications, run) <==> seals_manually(
            notifications.map_values(|notification: N| instant_command::<C>()),
            run,
        ),
        seals_instantly(notifications, run) ==> forall|i: int|
            0 <= i < run.len() ==> is_instant(#[trigger] run[i].0),
{
    let channel = notifications.map_values(|notification: N| instant_command::<C>());
    if seals_instantly(notifications, run) {
        assert(seals_manually(channel, run));
    }
    if seals_manually(channel, run) {
        assert(seals_instantly(notifications, run));
    }
}

/// Whether `event` is the answer that `action` asks for.
pub open spec fn is_answer_to<C: Chain>(event: Event<C>, action: Action<C>) -> bool {
    match action {
        Action::NextCommand => event is Command,
        Action::PoolStatus => event is PoolStatus,
        Action::Header { .. } => event is Header,
        Action::BestChain => event is BestChain,
        Action::InitProposer { .. } => event is Proposer,
        Action::CreateInherentData => event is InherentData,
        Action::Propose { .. } => event is Proposal,
        Action::ImportBlock { .. } => event is Import,
        Action::FinalizeBlock { .. } => event is Finalized,
        Action::Stop => false,
    }
}

/// The engine starts by asking for a command, and takes any answer to what it
/// asked for last, and nothing else; what it does not take, it hands back. The
/// steps that it takes are those of a run.
pub proof fn law_engine_takes_every_answer<C: Chain>(
    started: Step<C>,
    run: Seq<(Event<C>, Step<C>)>,
    event: Event<C>,
    taken: Result<Step<C>, (EngineState<C>, Event<C>)>,
)
    requires
        call_ensures(start::<C>, (), started),
        is_run(started.state, run),
        call_ensures(
            step::<C>,
            (state_before(started.state, run, run.len() as int), event),
            taken,
        ),
    ensures
        started.state is Idle,
        started.reply is None,
        started.action is NextCommand,
        taken is Ok <==> is_answer_to(
            event,
            if run.len() == 0 {
                started.action
            } else {
                run.last().1.action
            },
        ),
        taken matches Ok(next) ==> is_run(started.state, run.push((event, next))),
        taken matches Err(back) ==> back == (
            state_before(started.state, run, run.len() as int),
            event,
        ),
{
    if run.len() > 0 {
        lemma_run_without_last_step(started.state, run);
    }
    if let Ok(next) = taken {
        let longer = run.push((event, next));
        assert forall|i: int| #![trigger longer[i]] 0 <= i < longer.len() implies {
            &&& awaits(state_before(started.state, longer, i), longer[i].0)
            &&& is_step(state_before(started.state, longer, i), longer[i].0, longer[i].1)
        } by {
            if i < run.len() {
                assert(longer[i] == run[i]);
            }
        }
    }
}

/// Whether `run` takes this sealing command in its `c`th step.
pub open spec fn takes_seal_command<C: Chain>(
    run: Seq<(Event<C>, Step<C>)>,
    c: int,
    create_empty: bool,
    parent_hash: Option<C::Hash>,
    sender: Option<C::SealSender>,
) -> bool {
    &&& is_run(EngineState::Idle, run)
    &&& 0 <= c < run.len()
    &&& run[c].0 == Event::Command(
        Some(EngineCommand::<C>::SealNewBlock { create_empty, parent_hash, sender }),
    )
}

/// Whether a step ends the engine and tells the sender of a sealing command why.
pub open spec fn gives_up<C: Chain>(
    taken: Step<C>,
    sender: Option<C::SealSender>,
    error: SealError<C::Failure>,
) -> bool {
    &&& taken.reply == Some(
        Reply::<C>::Seal { sender, result: Err::<ImportedAux, SealError<C::Failure>>(error) },
    )
    &&& taken.action is Stop
    &&& taken.state is Stopped
}

/// A sealing command leads to a look at the pool, and to nothing else.
pub proof fn law_seal_command_asks_for_the_pool<C: Chain>(
    run: Seq<(Event<C>, Step<C>)>,
    c: int,
    create_empty: bool,
    parent_hash: Option<C::Hash>,
    sender: Option<C::SealSender>,
)
    requires
        takes_seal_command(run, c, create_empty, parent_hash, sender),
    ensures
        run[c].1.reply is None,
        run[c].1.action is PoolStatus,
        run[c].1.state == (EngineState::<C>::CheckingPool { create_empty, parent_hash, sender }),
        c + 1 < run.len() ==> run[c + 1].0 is PoolStatus,
{
    assert(is_step(state_before(EngineState::Idle, run, c), run[c].0, run[c].1));
    if c + 1 < run.len() {
        assert(awaits(state_before(EngineState::Idle, run, c + 1), run[c + 1].0));
    }
}

/// What the pool holds decides about a sealing command in one case only: if
/// nothing is ready and no empty block was asked for, the command is given up.
/// In any other case the parent is looked for, the one that was asked for or
/// else the best block.
pub proof fn law_pool_status_decides<C: Chain>(
    run: Seq<(Event<C>, Step<C>)>,
    c: int,
    create_empty: bool,
    parent_hash: Option<C::Hash>,
    sender: Option<C::SealSender>,
)
    requires
        takes_seal_command(run, c, create_empty, parent_hash, sender),
        c + 1 < run.len(),
    ensures
        run[c + 1].0 matches Event::PoolStatus { ready } && {
            &&& run[c + 1].1.action is Stop <==> ready == 0 && !create_empty
            &&& ready == 0 && !create_empty ==> {
                &&& gives_up(run[c + 1].1, sender, SealError::EmptyTransactionPool)
                &&& run.len() == c + 2
            }
            &&& ready > 0 || create_empty ==> {
                &&& run[c + 1].1.reply is None
                &&& match parent_hash {
                    Some(wanted) => run[c + 1].1.action == (Action::<C>::Header { hash: wanted }),
                    None => run[c + 1].1.action is BestChain,
                }
                &&& run[c + 1].1.state == match parent_hash {
                    Some(_) => EngineState::<C>::FindingParent { sender },
                    None => EngineState::<C>::ChoosingParent { sender },
                }
            }
        },
{
    law_seal_command_asks_for_the_pool(run, c, create_empty, parent_hash, sender);
    assert(is_step(state_before(EngineState::Idle, run, c + 1), run[c + 1].0, run[c + 1].1));
    if c + 2 < run.len() {
        assert(awaits(state_before(EngineState::Idle, run, c + 2), run[c + 2].0));
    }
}

/// A parent that is found leads to a proposer for it; one that is not found, or
/// not to be had, ends the command, each with its own error.
pub proof fn law_parent_decides<C: Chain>(
    run: Seq<(Event<C>, Step<C>)>,
    c: int,
    create_empty: bool,
    parent_hash: Option<C::Hash>,
    sender: Option<C::SealSender>,
)
    requires
        takes_seal_command(run, c, create_empty, parent_hash, sender),
        c + 2 < run.len(),
    ensures
        match run[c + 2].0 {
            Event::Header(Ok(Some(header))) => {
                &&& run[c + 2].1.reply is None
                &&& run[c + 2].1.action == (Action::<C>::InitProposer { parent: header })
            },
            Event::Header(Ok(None)) => gives_up(run[c + 2].1, sender, SealError::BlockNotFound),
            Event::Header(Err(e)) => gives_up(
                run[c + 2].1,
                sender,
                SealError::BlockchainError(e),
            ),
            Event::BestChain(Ok(header)) => {
                &&& run[c + 2].1.reply is None
                &&& run[c + 2].1.action == (Action::<C>::InitProposer { parent: header })
            },
            Event::BestChain(Err(e)) => gives_up(run[c + 2].1, sender, SealError::ConsensusError(e)),
            _ => false,
        },
        run[c + 2].0 is Header <==> parent_hash is Some,
        run[c + 2].1.action is InitProposer ==> run[c + 2].1.state == (EngineState::<
            C,
        >::InitializingProposer { sender }),
{
    law_pool_status_decides(run, c, create_empty, parent_hash, sender);
    assert(awaits(state_before(EngineState::Idle, run, c + 2), run[c + 2].0));
    assert(is_step(state_before(EngineState::Idle, run, c + 2), run[c + 2].0, run[c + 2].1));
}

/// A proposer leads to the inherent data; if there is none, the command ends
/// with what was said of it.
pub proof fn law_proposer_decides<C: Chain>(
    run: Seq<(Event<C>, Step<C>)>,
    c: int,
    create_empty: bool,
    parent_hash: Option<C::Hash>,
    sender: Option<C::SealSender>,
)
    requires
        takes_seal_command(run, c, create_empty, parent_hash, sender),
        c + 3 < run.len(),
    ensures
        match run[c + 3].0 {
            Event::Proposer(Ok(proposer)) => {
                &&& run[c + 3].1.reply is None
                &&& run[c + 3].1.action is CreateInherentData
                &&& run[c + 3].1.state == (EngineState::<C>::CreatingInherents { proposer, sender })
            },
            Event::Proposer(Err(text)) => gives_up(
                run[c + 3].1,
                sender,
                SealError::ProposerError(text),
            ),
            _ => false,
        },
{
    law_parent_decides(run, c, create_empty, parent_hash, sender);
    assert(awaits(state_before(EngineState::Idle, run, c + 3), run[c + 3].0));
    assert(is_step(state_before(EngineState::Idle, run, c + 3), run[c + 3].0, run[c + 3].1));
}

/// Inherent data leads to a proposal: the proposer at hand is given the data, no
/// digests and five seconds. If there is no data, the command ends.
pub proof fn law_inherent_data_decides<C: Chain>(
    run: Seq<(Event<C>, Step<C>)>,
    c: int,
    create_empty: bool,
    parent_hash: Option<C::Hash>,
    sender: Option<C::SealSender>,
)
    requires
        takes_seal_command(run, c, create_empty, parent_hash, sender),
        c + 4 < run.len(),
    ensures
        match run[c + 4].0 {
            Event::InherentData(Ok(created)) => {
                &&& run[c + 4].1.reply is None
                &&& run[c + 4].1.action matches Action::Propose {
                    proposer,
                    inherent_data,
                    inherent_digests,
                    max_duration_secs,
                }
                &&& run[c + 3].0 == Event::<C>::Proposer(Ok(proposer))
                &&& inherent_data == created
                &&& inherent_digests@.len() == 0
                &&& max_duration_secs == 5
                &&& run[c + 4].1.state == (EngineState::<C>::Proposing { sender })
            },
            Event::InherentData(Err(e)) => gives_up(
                run[c + 4].1,
                sender,
                SealError::InherentError(e),
            ),
            _ => false,
        },
{
    law_proposer_decides(run, c, create_empty, parent_hash, sender);
    assert(awaits(state_before(EngineState::Idle, run, c + 4), run[c + 4].0));
    assert(is_step(state_before(EngineState::Idle, run, c + 4), run[c + 4].0, run[c + 4].1));
}

/// A proposed block is imported: its header and body, as the engine's own, final
/// at once, with nothing added, the longest chain winning. If none was proposed,
/// the command ends with what was said of it.
pub proof fn law_proposal_decides<C: Chain>(
    run: Seq<(Event<C>, Step<C>)>,
    c: int,
    create_empty: bool,
    parent_hash: Option<C::Hash>,
    sender: Option<C::SealSender>,
)
    requires
        takes_seal_command(run, c, create_empty, parent_hash, sender),
        c + 5 < run.len(),
    ensures
        match run[c + 5].0 {
            Event::Proposal(Ok((header, body))) => {
                &&& run[c + 5].1.reply is None
                &&& run[c + 5].1.action matches Action::ImportBlock { params, cache }
                &&& params.origin == BlockOrigin::Own
                &&& params.header == header
                &&& params.justification is None
                &&& params.post_digests@.len() == 0
                &&& params.body == Some(body)
                &&& params.finalized
                &&& params.auxiliary@.len() == 0
                &&& params.fork_choice == ForkChoiceStrategy::LongestChain
                &&& !params.allow_missing_state
                &&& !params.import_existing
                &&& cache@.dom().is_empty()
                &&& run[c + 5].1.state == (EngineState::<C>::Importing { sender })
            },
            Event::Proposal(Err(text)) => gives_up(
                run[c + 5].1,
                sender,
                SealError::ProposerError(text),
            ),
            _ => false,
        },
{
    law_inherent_data_decides(run, c, create_empty, parent_hash, sender);
    assert(awaits(state_before(EngineState::Idle, run, c + 5), run[c + 5].0));
    assert(is_step(state_before(EngineState::Idle, run, c + 5), run[c + 5].0, run[c + 5].1));
}

/// The outcome of the import is what the sender is told, and the engine asks for
/// the next command.
pub proof fn law_import_is_reported<C: Chain>(
    run: Seq<(Event<C>, Step<C>)>,
    c: int,
    create_empty: bool,
    parent_hash: Option<C::Hash>,
    sender: Option<C::SealSender>,
)
    requires
        takes_seal_command(run, c, create_empty, parent_hash, sender),
        c + 6 < run.len(),
    ensures
        run[c + 6].0 matches Event::Import(outcome) && run[c + 6].1.reply == Some(
            Reply::<C>::Seal {
                sender,
                result: match outcome {
                    Ok(ImportResult::Imported(aux)) => Ok::<ImportedAux, SealError<C::Failure>>(
                        aux,
                    ),
                    Ok(other) => Err(SealError::BlockImportError(other)),
                    Err(e) => Err(SealError::ConsensusError(e)),
                },
            },
        ),
        run[c + 6].1.action is NextCommand,
        run[c + 6].1.state is Idle,
{
    law_proposal_decides(run, c, create_empty, parent_hash, sender);
    assert(awaits(state_before(EngineState::Idle, run, c + 6), run[c + 6].0));
    assert(is_step(state_before(EngineState::Idle, run, c + 6), run[c + 6].0, run[c + 6].1));
}

/// A finalization command leads to the finalization of the block that it names,
/// without a justification; the outcome is what the sender is told, and the
/// engine asks for the next command.
pub proof fn law_finalization_is_done_and_reported<C: Chain>(
    run: Seq<(Event<C>, Step<C>)>,
    c: int,
    hash: C::Hash,
    sender: Option<C::FinalizeSender>,
)
    requires
        is_run(EngineState::Idle, run),
        0 <= c < run.len(),
        run[c].0 == Event::Command(Some(EngineCommand::<C>::FinalizeBlock { hash, sender })),
    ensures
        run[c].1.reply is None,
        run[c].1.action == (Action::<C>::FinalizeBlock { hash, justification: None }),
        c + 1 < run.len() ==> {
            &&& run[c + 1].0 matches Event::Finalized(outcome)
            &&& run[c + 1].1.reply == Some(
                Reply::<C>::Finalize {
                    sender,
                    result: match outcome {
                        Ok(()) => Ok::<(), SealError<C::Failure>>(()),
                        Err(e) => Err(SealError::BlockchainError(e)),
                    },
                },
            )
            &&& run[c + 1].1.action is NextCommand
            &&& run[c + 1].1.state is Idle
        },
{
    assert(is_step(state_before(EngineState::Idle, run, c), run[c].0, run[c].1));
    if c + 1 < run.len() {
        assert(awaits(state_before(EngineState::Idle, run, c + 1), run[c + 1].0));
        assert(is_step(state_before(EngineState::Idle, run, c + 1), run[c + 1].0, run[c + 1].1));
    }
}

/// When there are no more commands, the engine stops and tells nobody; it stops
/// on no command.
pub proof fn law_command_stops_only_if_it_is_none<C: Chain>(
    run: Seq<(Event<C>, Step<C>)>,
    i: int,
    command: Option<EngineCommand<C>>,
)
    requires
        is_run(EngineState::Idle, run),
        0 <= i < run.len(),
        run[i].0 == Event::Command(command),
    ensures
        run[i].1.reply is None,
        run[i].1.action is Stop <==> command is None,
        run[i].1.state is Stopped <==> command is None,
{
    assert(is_step(state_before(EngineState::Idle, run, i), run[i].0, run[i].1));
    assert(awaits(state_before(EngineState::Idle, run, i), run[i].0));
}

/// The command of instant sealing asks for a block on the best one, never an
/// empty one, and reports to nobody; it is the same for all notifications.
pub proof fn law_instant_command_is_fixed<C: Chain, N>(notification: N, command: EngineCommand<C>)
    requires
        call_ensures(instant_seal_command::<C, N>, (notification,), command),
    ensures
        command == (EngineCommand::<C>::SealNewBlock {
            create_empty: false,
            parent_hash: None,
            sender: None,
        }),
        command == instant_command::<C>(),
{
}

} // verus!
