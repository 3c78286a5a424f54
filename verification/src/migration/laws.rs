//! What holds of sender and receiver together.
//!
//! * [`limits`] says what the user's limits decide,
//! * [`order`] says in which order a VM is sent,
//! * [`protocol`] says which commands make a migration, and what the receiver
//!   does for each,
//! * [`transport`] is about connections and the memory that goes through them.
use crate::migration::connections::MemoryEvent;
use crate::migration::connections::MemorySend;
use crate::migration::connections::MemoryStep;
use crate::migration::connections::PendingData;
use crate::migration::connections::SendMemoryThreadNotify;
use crate::migration::connections::TryNotify;
use crate::migration::connections::WaitStep;
use crate::migration::endpoint;
use crate::migration::error::MigratableError;
use crate::migration::error::Reason;
use crate::migration::memory;
use crate::migration::memory::MemoryRange;
use crate::migration::precopy;
use crate::migration::precopy::MigrationStateInternal;
use crate::migration::precopy::AUTO_CONVERGE_ITERATION_DELAY;
use crate::migration::precopy::AUTO_CONVERGE_MAX;
use crate::migration::protocol::Command;
use crate::migration::protocol::Stage;
use crate::migration::receive;
use crate::migration::receive::ReceiveEffect;
use crate::migration::receive::ReceiveMigrationState;
use crate::migration::receive::ReceiveOutcome;
use crate::migration::receive::ReceivePending;
use crate::migration::receive::ReceiveStep;
use crate::migration::receive::SessionModel;
use crate::migration::send::SendEvent;
use crate::migration::send::SendPhase;
use crate::migration::send::SenderModel;
use crate::vmm::host::Host;
use crate::vmm::ownership::MaybeVmOwnership;
use crate::vmm::state::VmmModel;
use vstd::prelude::*;

pub mod limits;
pub mod order;
pub mod protocol;
pub mod transport;

verus! {

/// A command, several times.
pub open spec fn repeated(command: Command, n: nat) -> Seq<Command> {
    Seq::new(n, |i: int| command)
}

/// The commands that the sender sends in a phase. The descriptors of the
/// memory, and the memory itself, take as many commands as they take.
pub open spec fn commands(phase: SendPhase, n: nat) -> Seq<Command> {
    match phase {
        SendPhase::SendStart => seq![Command::Start],
        SendPhase::SendMemoryFds => repeated(Command::MemoryFd, n),
        SendPhase::SendConfigRequest => seq![Command::Config],
        SendPhase::SendRanges => repeated(Command::Memory, n),
        SendPhase::SendLastRanges => repeated(Command::Memory, n),
        SendPhase::SendStateRequest => seq![Command::State],
        SendPhase::SendCompleteRequest => seq![Command::Complete],
        SendPhase::SendAbandon => seq![Command::Abandon],
        SendPhase::SendTimeoutAbandon => seq![Command::Abandon],
        _ => Seq::empty(),
    }
}

/// Whether the receiver can be at a stage when the sender begins a phase.
pub open spec fn in_step(phase: SendPhase, stage: Stage) -> bool {
    match phase {
        SendPhase::Connect | SendPhase::SendStart => stage == Stage::Established,
        SendPhase::ReadStartResponse | SendPhase::GenerateCpuid | SendPhase::SendMemoryFds => stage
            == Stage::Started,
        SendPhase::SendConfigRequest => stage == Stage::Started || stage
            == Stage::MemoryFdsReceived,
        SendPhase::SendStateData | SendPhase::ReadStateResponse | SendPhase::SendCompleteRequest =>
            stage == Stage::StateReceived,
        SendPhase::ReadCompleteResponse | SendPhase::StopDirtyLogAgain
        | SendPhase::CompleteMigration => stage == Stage::Completed,
        SendPhase::SendAbandon => !stage.is_finished(),
        SendPhase::ReadTimeoutResponse => stage == Stage::Aborted,
        SendPhase::Ended => true,
        _ => stage == Stage::Configured,
    }
}

/// Whether an event says that all went well.
pub open spec fn went_well<E>(event: SendEvent<E>) -> bool {
    match event {
        SendEvent::Failed(_) => false,
        SendEvent::Aborted(_) => false,
        SendEvent::Response(handled) => handled,
        _ => true,
    }
}

proof fn lemma_repeated(stage: Stage, command: Command, n: nat)
    requires
        stage.after(command) is Some,
        stage.after(command)->Some_0.after(command) == stage.after(command),
    ensures
        stage.after_all(repeated(command, n)) == if n == 0 {
            Some(stage)
        } else {
            stage.after(command)
        },
    decreases n,
{
    if n > 0 {
        let m = (n - 1) as nat;
        lemma_repeated(stage, command, m);
        assert(repeated(command, n).drop_last() =~= repeated(command, m));
    }
}

proof fn lemma_single(stage: Stage, command: Command)
    ensures
        stage.after_all(seq![command]) == stage.after(command),
{
    assert(seq![command].drop_last() =~= Seq::empty());
    assert(stage.after_all(Seq::empty()) == Some(stage));
    assert(stage.after_all(seq![command].drop_last()) == Some(stage));
}

/// Every command of the sender comes at a stage of the receiver at which it may
/// come, and leads to the stage that the sender's next phase counts on.
///
/// A receiver that confirms that the sender gives up because of a timeout is
/// left out: the sender then goes on although the receiver has stopped.
pub proof fn law_sender_follows_protocol<E>(
    m: SenderModel,
    event: SendEvent<E>,
    cancelled: bool,
    stage: Stage,
    n: nat,
)
    requires
        m.accepts(event),
        went_well(event),
        in_step(m.phase, stage),
        m.phase != SendPhase::ReadTimeoutResponse,
    ensures
        stage.after_all(commands(m.phase, n)) is Some,
        in_step(m.next(event, cancelled).0.phase, stage.after_all(commands(m.phase, n))->Some_0),
{
    lemma_single(stage, Command::Start);
    lemma_single(stage, Command::Config);
    lemma_single(stage, Command::State);
    lemma_single(stage, Command::Complete);
    lemma_single(stage, Command::Abandon);
    if m.phase == SendPhase::SendMemoryFds {
        lemma_repeated(stage, Command::MemoryFd, n);
    }
    if m.phase == SendPhase::SendRanges || m.phase == SendPhase::SendLastRanges {
        lemma_repeated(stage, Command::Memory, n);
    }
    assert(stage.after_all(Seq::empty()) == Some(stage));
}

/// One step of a sender: what happened, whether the migration was cancelled by
/// then, and how many commands it took.
pub ghost struct SendInput<E> {
    pub event: SendEvent<E>,
    pub cancelled: bool,
    pub n: nat,
}

/// The sender after steps.
pub open spec fn run<E>(m: SenderModel, inputs: Seq<SendInput<E>>) -> SenderModel
    decreases inputs.len(),
{
    if inputs.len() == 0 {
        m
    } else {
        let before = run(m, inputs.drop_last());
        before.next(inputs.last().event, inputs.last().cancelled).0
    }
}

/// The commands that the sender has sent in the steps.
pub open spec fn run_commands<E>(m: SenderModel, inputs: Seq<SendInput<E>>) -> Seq<Command>
    decreases inputs.len(),
{
    if inputs.len() == 0 {
        Seq::empty()
    } else {
        let before = run(m, inputs.drop_last());
        run_commands(m, inputs.drop_last()) + commands(before.phase, inputs.last().n)
    }
}

/// Whether all went well in the steps, and no receiver has confirmed that the
/// sender gives up because of a timeout.
pub open spec fn runs_well<E>(m: SenderModel, inputs: Seq<SendInput<E>>) -> bool
    decreases inputs.len(),
{
    inputs.len() == 0 || {
        let before = run(m, inputs.drop_last());
        &&& runs_well(m, inputs.drop_last())
        &&& before.accepts(inputs.last().event)
        &&& went_well(inputs.last().event)
        &&& before.phase != SendPhase::ReadTimeoutResponse
    }
}

proof fn lemma_after_all_add(stage: Stage, first: Seq<Command>, second: Seq<Command>)
    requires
        stage.after_all(first) is Some,
    ensures
        stage.after_all(first + second) == stage.after_all(first)->Some_0.after_all(second),
    decreases second.len(),
{
    if second.len() == 0 {
        assert(first + second =~= first);
    } else {
        lemma_after_all_add(stage, first, second.drop_last());
        assert((first + second).drop_last() =~= first + second.drop_last());
    }
}

/// All commands of a sender that has begun, as long as all goes well, are
/// accepted by a receiver that has just been connected to.
pub proof fn law_receiver_accepts_sender<E>(m: SenderModel, inputs: Seq<SendInput<E>>)
    requires
        m.phase == SendPhase::Connect,
        runs_well(m, inputs),
    ensures
        Stage::Established.after_all(run_commands(m, inputs)) is Some,
        in_step(
            run(m, inputs).phase,
            Stage::Established.after_all(run_commands(m, inputs))->Some_0,
        ),
    decreases inputs.len(),
{
    if inputs.len() > 0 {
        let before = inputs.drop_last();
        let last = inputs.last();
        law_receiver_accepts_sender(m, before);
        let stage = Stage::Established.after_all(run_commands(m, before))->Some_0;
        law_sender_follows_protocol(run(m, before), last.event, last.cancelled, stage, last.n);
        lemma_after_all_add(
            Stage::Established,
            run_commands(m, before),
            commands(run(m, before).phase, last.n),
        );
    } else {
        assert(Stage::Established.after_all(Seq::empty()) == Some(Stage::Established));
    }
}

proof fn lemma_success_comes_last<E>(m: SenderModel, event: SendEvent<E>, cancelled: bool)
    requires
        m.accepts(event),
        m.next(event, cancelled).1 == Some(Ok::<(), MigratableError<E>>(())),
    ensures
        m.phase == SendPhase::CompleteMigration,
{
}

/// A migration that the sender takes for successful was completed by the
/// receiver.
pub proof fn law_success_means_completed<E>(
    m: SenderModel,
    inputs: Seq<SendInput<E>>,
    event: SendEvent<E>,
    cancelled: bool,
)
    requires
        m.phase == SendPhase::Connect,
        runs_well(m, inputs),
        run(m, inputs).accepts(event),
        run(m, inputs).next(event, cancelled).1 == Some(Ok::<(), MigratableError<E>>(())),
    ensures
        run(m, inputs).phase == SendPhase::CompleteMigration,
        Stage::Established.after_all(run_commands(m, inputs)) == Some(Stage::Completed),
{
    lemma_success_comes_last(run(m, inputs), event, cancelled);
    law_receiver_accepts_sender(m, inputs);
}

/// A migration that has got as far as a snapshot has looked for what the guest
/// asked for, and the snapshot carries what it found.
pub proof fn law_sent_wish_was_looked_for<E>(m: SenderModel, inputs: Seq<SendInput<E>>)
    requires
        m.phase == SendPhase::Connect,
        runs_well(m, inputs),
        has_snapshot(run(m, inputs).phase),
    ensures
        exists|i: int|
            0 <= i < inputs.len() && (#[trigger] inputs[i]).event == SendEvent::<E>::Wish(
                run(m, inputs).wish,
            ),
    decreases inputs.len(),
{
    if inputs.len() > 0 {
        let before = inputs.drop_last();
        let last = inputs.last();
        law_snapshot_carries_the_wish(run(m, before), last.event, last.cancelled);
        if has_snapshot(run(m, before).phase) {
            law_sent_wish_was_looked_for(m, before);
            let i = choose|i: int|
                0 <= i < before.len() && (#[trigger] before[i]).event == SendEvent::<E>::Wish(
                    run(m, before).wish,
                );
            assert(inputs[i] == before[i]);
        } else {
            assert(inputs[inputs.len() - 1] == last);
        }
    }
}

/// Whether each event of the steps is one that the phase could have, well or
/// not.
pub open spec fn is_run<E>(m: SenderModel, inputs: Seq<SendInput<E>>) -> bool
    decreases inputs.len(),
{
    inputs.len() == 0 || {
        &&& is_run(m, inputs.drop_last())
        &&& run(m, inputs.drop_last()).accepts(inputs.last().event)
    }
}

/// The tables that were sent in the steps, in one of the two phases that send
/// memory.
pub open spec fn run_tables<E>(
    m: SenderModel,
    inputs: Seq<SendInput<E>>,
    phase: SendPhase,
) -> Seq<Seq<MemoryRange>>
    decreases inputs.len(),
{
    if inputs.len() == 0 {
        Seq::empty()
    } else {
        let before = run(m, inputs.drop_last());
        let tables = run_tables(m, inputs.drop_last(), phase);
        if before.phase == phase && inputs.last().event is Sent {
            tables.push(before.ranges)
        } else {
            tables
        }
    }
}

/// The number of bytes in tables.
pub open spec fn table_bytes(tables: Seq<Seq<MemoryRange>>) -> nat
    decreases tables.len(),
{
    if tables.len() == 0 {
        0
    } else {
        table_bytes(tables.drop_last()) + memory::total(tables.last())
    }
}

/// The number of pages in tables. A page that a table begins counts.
pub open spec fn table_pages(tables: Seq<Seq<MemoryRange>>) -> int
    decreases tables.len(),
{
    if tables.len() == 0 {
        0
    } else {
        table_pages(tables.drop_last()) + memory::pages(memory::total(tables.last()) as int)
    }
}

/// Whether the sender has sent memory for the last time when a phase begins.
pub open spec fn has_sent_last(phase: SendPhase) -> bool {
    phase == SendPhase::StopDirtyLog || is_past_release(phase)
}

/// What the metrics say of the table that the sender is about to send, and
/// where only a sender to the same host gets.
spec fn is_planned(m: SenderModel) -> bool {
    &&& m.phase == SendPhase::EstimateDowntime || m.phase == SendPhase::SendRanges ==> {
        &&& m.state.bytes_to_transmit == memory::total(m.ranges)
        &&& m.state.pages_to_transmit == memory::pages(memory::total(m.ranges) as int)
    }
    &&& m.phase == SendPhase::PauseLocalVm ==> m.params.local
}

proof fn lemma_next_is_planned<E>(m: SenderModel, event: SendEvent<E>, cancelled: bool)
    requires
        m.accepts(event),
        is_planned(m),
    ensures
        ({
            let next = m.next(event, cancelled).0;
            let bytes = memory::total(m.ranges);
            let looped = m.phase == SendPhase::SendRanges && event is Sent;
            let last = m.phase == SendPhase::SendLastRanges && event is Sent;
            &&& is_planned(next)
            &&& next.params == m.params
            &&& next.state.iteration == m.state.iteration + if looped {
                1int
            } else {
                0int
            }
            &&& next.state.total_transferred_bytes == m.state.total_transferred_bytes + if looped
                || last {
                bytes as int
            } else {
                0int
            }
            &&& next.state.total_transferred_pages == m.state.total_transferred_pages + if looped
                || last {
                memory::pages(bytes as int)
            } else {
                0int
            }
            &&& last ==> next.phase == SendPhase::StopDirtyLog
            &&& has_sent_last(next.phase) ==> last || has_sent_last(m.phase) || (m.params.local
                && m.phase == SendPhase::PauseLocalVm)
            &&& has_sent_last(m.phase) ==> has_sent_last(next.phase) || next.phase
                == SendPhase::SendAbandon || next.phase == SendPhase::Ended
            &&& m.phase == SendPhase::SendAbandon || m.phase == SendPhase::Ended ==> next.phase
                == SendPhase::Ended
        }),
{
}

/// Over any run of a sender, well or not, the number of the iteration is that
/// of the tables that were sent while the VM ran. The totals are the sums over
/// these tables and the last one, which is sent once the VM is paused. The
/// memory of a VM that does not stay on this host is sent for the last time
/// exactly once before its disks are unlocked.
pub proof fn law_metrics_count_what_was_sent<E>(m: SenderModel, inputs: Seq<SendInput<E>>)
    requires
        m.phase == SendPhase::Connect,
        m.state == precopy::initial(),
        is_run(m, inputs),
    ensures
        ({
            let now = run(m, inputs);
            let looped = run_tables(m, inputs, SendPhase::SendRanges);
            let last = run_tables(m, inputs, SendPhase::SendLastRanges);
            &&& now.state.iteration == looped.len()
            &&& now.state.total_transferred_bytes == table_bytes(looped) + table_bytes(last)
            &&& now.state.total_transferred_pages == table_pages(looped) + table_pages(last)
            &&& last.len() <= 1
            &&& last.len() == 1 ==> has_sent_last(now.phase) || now.phase == SendPhase::SendAbandon
                || now.phase == SendPhase::Ended
            &&& has_sent_last(now.phase) && !m.params.local ==> last.len() == 1
        }),
{
    lemma_metrics_count_what_was_sent(m, inputs);
}

proof fn lemma_metrics_count_what_was_sent<E>(m: SenderModel, inputs: Seq<SendInput<E>>)
    requires
        m.phase == SendPhase::Connect,
        m.state == precopy::initial(),
        is_run(m, inputs),
    ensures
        ({
            let now = run(m, inputs);
            let looped = run_tables(m, inputs, SendPhase::SendRanges);
            let last = run_tables(m, inputs, SendPhase::SendLastRanges);
            &&& is_planned(now)
            &&& now.params == m.params
            &&& now.state.iteration == looped.len()
            &&& now.state.total_transferred_bytes == table_bytes(looped) + table_bytes(last)
            &&& now.state.total_transferred_pages == table_pages(looped) + table_pages(last)
            &&& last.len() <= 1
            &&& last.len() == 1 ==> has_sent_last(now.phase) || now.phase == SendPhase::SendAbandon
                || now.phase == SendPhase::Ended
            &&& has_sent_last(now.phase) && !m.params.local ==> last.len() == 1
        }),
    decreases inputs.len(),
{
    if inputs.len() > 0 {
        let before = inputs.drop_last();
        let step = inputs.last();
        lemma_metrics_count_what_was_sent(m, before);
        let sender = run(m, before);
        lemma_next_is_planned(sender, step.event, step.cancelled);
        let looped = run_tables(m, before, SendPhase::SendRanges);
        let last = run_tables(m, before, SendPhase::SendLastRanges);
        assert(looped.push(sender.ranges).drop_last() =~= looped);
        assert(last.push(sender.ranges).drop_last() =~= last);
    }
}

/// Whether the disks are unlocked in a phase, or are about to be.
pub open spec fn is_past_release(phase: SendPhase) -> bool {
    match phase {
        SendPhase::ReleaseDiskLocks | SendPhase::MarkShutdown | SendPhase::ReadWish
        | SendPhase::TakeSnapshot | SendPhase::SendStateRequest | SendPhase::SendStateData
        | SendPhase::ReadStateResponse | SendPhase::SendCompleteRequest
        | SendPhase::ReadCompleteResponse | SendPhase::StopDirtyLogAgain
        | SendPhase::CompleteMigration => true,
        _ => false,
    }
}

/// Once the disks are about to be unlocked, a migration cannot be cancelled any
/// more: it goes on, or it ends for another reason.
pub proof fn law_no_cancel_after_release<E>(m: SenderModel, event: SendEvent<E>, cancelled: bool)
    requires
        is_past_release(m.phase),
        m.accepts(event),
        !(event is Aborted),
    ensures
        m.next(event, cancelled) == m.next(event, !cancelled),
        ({
            let (next, r) = m.next(event, cancelled);
            &&& is_past_release(next.phase) || next.phase == SendPhase::Ended
            &&& !(r matches Some(Err(MigratableError::Cancelled)))
        }),
{
}

/// The phases in which the snapshot is taken, or was.
pub open spec fn has_snapshot(phase: SendPhase) -> bool {
    match phase {
        SendPhase::TakeSnapshot | SendPhase::SendStateRequest | SendPhase::SendStateData
        | SendPhase::ReadStateResponse | SendPhase::SendCompleteRequest
        | SendPhase::ReadCompleteResponse | SendPhase::StopDirtyLogAgain
        | SendPhase::CompleteMigration => true,
        _ => false,
    }
}

/// The snapshot carries what the guest has asked for: the sender gets there
/// only by looking for it, and keeps what it found until the end.
pub proof fn law_snapshot_carries_the_wish<E>(
    m: SenderModel,
    event: SendEvent<E>,
    cancelled: bool,
)
    requires
        m.accepts(event),
    ensures
        ({
            let next = m.next(event, cancelled).0;
            &&& has_snapshot(next.phase) && !has_snapshot(m.phase) ==> m.phase
                == SendPhase::ReadWish && event == SendEvent::<E>::Wish(next.wish) && next.phase
                == SendPhase::TakeSnapshot
            &&& has_snapshot(m.phase) ==> next.wish == m.wish
        }),
{
}

/// Whether the sender looks after a phase whether the migration was cancelled.
pub open spec fn checks_cancellation(phase: SendPhase) -> bool {
    match phase {
        SendPhase::ReadStartResponse | SendPhase::GenerateCpuid | SendPhase::SendMemoryFds
        | SendPhase::ReadConfigResponse | SendPhase::PauseLocalVm | SendPhase::MeasureMemory
        | SendPhase::SendRanges | SendPhase::StopDirtyLog => true,
        _ => false,
    }
}

/// A cancelled migration stops where the sender looks for it: the receiver is
/// told first, and the migration is reported as cancelled then. Only a guest
/// that has asked for a reboot or a shutdown lets the sender go on to the end
/// of the memory, where it looks again.
pub proof fn law_cancellation_is_told<E>(m: SenderModel, event: SendEvent<E>)
    requires
        checks_cancellation(m.phase),
        m.accepts(event),
        went_well(event),
        !(event matches SendEvent::Sent(postponed, _) && postponed),
    ensures
        m.next(event, true).0.phase == SendPhase::SendAbandon,
        m.next(event, true).1 is None,
        m.next(event, true).0.next(SendEvent::<E>::Done, true).1 == Some(
            Err::<(), MigratableError<E>>(MigratableError::Cancelled),
        ),
        m.next(event, false).0.phase != SendPhase::SendAbandon,
{
}

/// The throttling only grows, up to its maximum, and not in the first
/// iterations.
pub proof fn law_throttling_grows_to_its_maximum(s: MigrationStateInternal, current: u8)
    requires
        current <= AUTO_CONVERGE_MAX,
    ensures
        current <= s.throttle(current) <= AUTO_CONVERGE_MAX,
        s.iteration < AUTO_CONVERGE_ITERATION_DELAY ==> s.throttle(current) == current,
{
}

/// No range that was collected is lost: either it is sent while the VM runs,
/// or it is among the last ranges, behind what has changed since.
pub proof fn law_collected_ranges_are_sent<E>(
    m: SenderModel,
    rate: u64,
    downtime_ns: u128,
    cancelled: bool,
    last: Vec<MemoryRange>,
)
    requires
        m.phase == SendPhase::EstimateDowntime,
    ensures
        ({
            let next = m.next(SendEvent::<E>::Estimate(rate, downtime_ns), cancelled).0;
            &&& next.ranges == m.ranges
            &&& next.phase == SendPhase::SendRanges || next.phase == SendPhase::StopThrottling
            &&& next.phase == SendPhase::StopThrottling ==> {
                let paused = next.next(SendEvent::<E>::Done, cancelled).0.next(
                    SendEvent::<E>::Done,
                    cancelled,
                ).0;
                let sending = paused.next(SendEvent::<E>::Ranges(last), cancelled).0;
                &&& paused.phase == SendPhase::CollectLastRanges
                &&& sending.phase == SendPhase::SendLastRanges
                &&& sending.ranges == last@ + m.ranges
            }
        }),
{
}

/// The receiver answers a command well only with the stage that the command
/// leads to, and refuses every command that may not come.
pub proof fn law_receiver_follows_protocol<H: Host>(
    m: VmmModel<H>,
    s: SessionModel<H>,
    state: ReceiveMigrationState<H>,
    command: Command,
    length: u64,
)
    requires
        !state.stage().is_finished(),
    ensures
        ({
            let (_, step) = m.receive_command(s, state, command, length);
            match state.stage().after(command) {
                None => step == receive::refused::<H>(
                    receive::receive_reason(Reason::UnexpectedCommand),
                ),
                Some(stage) => step matches ReceiveStep::Do(_, pending) && (pending matches
                    ReceivePending::Respond(next) ==> next.stage() == stage),
            }
        }),
{
}

/// Each command that takes more than one effect ends, if all goes well, with
/// the stage that it leads to.
pub proof fn law_received_commands_reach_their_stage<H: Host>(
    m: VmmModel<H>,
    s: SessionModel<H>,
    slot: [u8; 4],
    file: H::MemoryFile,
    memory: H::ReceivedMemory,
    vm: H::Vm,
)
    ensures
        m.receive(s, ReceivePending::MemoryFd, ReceiveOutcome::Descriptor(slot, Some(file))).2
            == receive::handled::<H>(ReceiveMigrationState::MemoryFdsReceived),
        m.receive(s, ReceivePending::ConfigConnections, ReceiveOutcome::Memory(memory)).2
            == receive::handled::<H>(ReceiveMigrationState::Configured(memory)),
        m.receive(s, ReceivePending::MemoryFill, ReceiveOutcome::Memory(memory)).2
            == receive::handled::<H>(ReceiveMigrationState::Configured(memory)),
        m.receive(s, ReceivePending::StateRestore, ReceiveOutcome::Vm(vm)) == (
            VmmModel { vm: MaybeVmOwnership::Vmm(vm), ..m },
            s,
            receive::handled::<H>(ReceiveMigrationState::StateReceived),
        ),
        m.receive(s, ReceivePending::Complete, ReceiveOutcome::Done).2 == receive::handled::<H>(
            ReceiveMigrationState::Completed,
        ),
{
}

/// Once the sender was answered, the receiver waits for the next command, or
/// has received the whole migration.
pub proof fn law_answered_commands_lead_on<H: Host>(
    m: VmmModel<H>,
    s: SessionModel<H>,
    state: ReceiveMigrationState<H>,
)
    ensures
        !state.stage().is_finished() ==> m.receive(
            s,
            ReceivePending::Respond(state),
            ReceiveOutcome::Done,
        ) == (
            m,
            s,
            ReceiveStep::<H>::Do(ReceiveEffect::ReadRequest, ReceivePending::Request(state)),
        ),
        m.receive(
            s,
            ReceivePending::Respond(ReceiveMigrationState::Completed),
            ReceiveOutcome::Done,
        ) == (m, s, ReceiveStep::<H>::Finished(Ok(()))),
{
}

/// A migration that was not received leaves neither a VM nor a configuration
/// behind, once the sender was answered.
pub proof fn law_lost_migration_leaves_nothing<H: Host>(
    m: VmmModel<H>,
    s: SessionModel<H>,
    e: MigratableError<H::Error>,
)
    ensures
        ({
            let (next, _, step) = m.receive(
                s,
                ReceivePending::RespondError(e),
                ReceiveOutcome::Done,
            );
            &&& next.vm is Absent
            &&& next.vm_config is None
            &&& step matches ReceiveStep::Finished(Err(_))
        }),
        ({
            let (next, _, step) = m.receive(
                s,
                ReceivePending::Respond(ReceiveMigrationState::Aborted),
                ReceiveOutcome::Done,
            );
            &&& next.vm is Absent
            &&& next.vm_config is None
            &&& step matches ReceiveStep::Finished(Err(_))
        }),
{
}

/// One step of a receiver: the monitor and the session by then, and the outcome
/// of what was to be done.
pub ghost struct ReceiveInput<H: Host> {
    pub monitor: VmmModel<H>,
    pub session: SessionModel<H>,
    pub outcome: ReceiveOutcome<H>,
}

/// What a receiver that begins with `first` has to do after steps.
pub open spec fn receive_run<H: Host>(
    first: ReceiveStep<H>,
    inputs: Seq<ReceiveInput<H>>,
) -> ReceiveStep<H>
    decreases inputs.len(),
{
    if inputs.len() == 0 {
        first
    } else {
        let last = inputs.last();
        match receive_run(first, inputs.drop_last()) {
            ReceiveStep::Do(_, pending) => last.monitor.receive(
                last.session,
                pending,
                last.outcome,
            ).2,
            ReceiveStep::Finished(r) => ReceiveStep::Finished(r),
        }
    }
}

/// Whether each outcome of the steps is one that was waited for.
pub open spec fn is_receive_run<H: Host>(
    first: ReceiveStep<H>,
    inputs: Seq<ReceiveInput<H>>,
) -> bool
    decreases inputs.len(),
{
    inputs.len() == 0 || {
        &&& is_receive_run(first, inputs.drop_last())
        &&& receive_run(first, inputs.drop_last()) matches ReceiveStep::Do(_, pending)
            && pending.accepts(inputs.last().outcome)
    }
}

/// The commands that were read in the steps.
pub open spec fn commands_read<H: Host>(inputs: Seq<ReceiveInput<H>>) -> Seq<Command>
    decreases inputs.len(),
{
    if inputs.len() == 0 {
        Seq::empty()
    } else {
        match inputs.last().outcome {
            ReceiveOutcome::Request(command, _) => commands_read(inputs.drop_last()).push(command),
            _ => commands_read(inputs.drop_last()),
        }
    }
}

/// The answers that were given in the steps: whether the sender was to be told
/// that its command was handled. One that could not be written counts.
pub open spec fn answers<H: Host>(first: ReceiveStep<H>, inputs: Seq<ReceiveInput<H>>) -> Seq<bool>
    decreases inputs.len(),
{
    if inputs.len() == 0 {
        Seq::empty()
    } else {
        match receive_run(first, inputs.drop_last()) {
            ReceiveStep::Do(ReceiveEffect::Respond(well), _) => answers(
                first,
                inputs.drop_last(),
            ).push(well),
            _ => answers(first, inputs.drop_last()),
        }
    }
}

/// Whether a command was read and is yet to be answered.
pub open spec fn owes_answer<H: Host>(step: ReceiveStep<H>) -> bool {
    match step {
        ReceiveStep::Do(_, pending) => !(pending is Listen || pending is LoadTls
            || pending is Accept || pending is Request),
        ReceiveStep::Finished(_) => false,
    }
}

/// Whether all answers say that the commands were handled, and more commands
/// may come.
pub open spec fn may_go_on(commands: Seq<Command>, answers: Seq<bool>) -> bool {
    &&& commands.len() == answers.len()
    &&& forall|i: int| 0 <= i < answers.len() ==> answers[i]
    &&& Stage::Established.after_all(commands) matches Some(stage) && !stage.is_finished()
}

/// Whether what is pending leads to a stage, if all goes well.
spec fn heads_for<H: Host>(pending: ReceivePending<H>, stage: Stage) -> bool {
    match pending {
        ReceivePending::MemoryFd => stage == Stage::MemoryFdsReceived,
        ReceivePending::ConfigPayload | ReceivePending::ConfigParse | ReceivePending::ConfigCpuid(_)
        | ReceivePending::ConfigConsole | ReceivePending::ConfigLandlock
        | ReceivePending::ConfigMemory | ReceivePending::ConfigConnections
        | ReceivePending::MemoryTable | ReceivePending::MemoryFill => stage == Stage::Configured,
        ReceivePending::StatePayload(_) | ReceivePending::StateParse(_)
        | ReceivePending::StateEvents(_) | ReceivePending::StateCreate
        | ReceivePending::StateRestore => stage == Stage::StateReceived,
        ReceivePending::Announce | ReceivePending::Complete => stage == Stage::Completed,
        ReceivePending::Respond(state) => stage == state.stage(),
        _ => false,
    }
}

/// What the commands and the answers so far have to do with the next step.
spec fn is_in_turn<H: Host>(
    step: ReceiveStep<H>,
    commands: Seq<Command>,
    answers: Seq<bool>,
) -> bool {
    let stage = Stage::Established.after_all(commands);
    match step {
        ReceiveStep::Do(effect, pending) => match pending {
            ReceivePending::Listen(_) | ReceivePending::LoadTls | ReceivePending::Accept => {
                &&& commands.len() == 0
                &&& answers.len() == 0
                &&& !(effect is Respond)
            },
            ReceivePending::Request(state) => {
                &&& may_go_on(commands, answers)
                &&& stage == Some(state.stage())
                &&& effect is ReadRequest
            },
            ReceivePending::RespondError(_) => {
                &&& commands.len() > 0
                &&& may_go_on(commands.drop_last(), answers)
                &&& effect == ReceiveEffect::<H>::Respond(false)
            },
            _ => {
                &&& commands.len() > 0
                &&& may_go_on(commands.drop_last(), answers)
                &&& stage is Some
                &&& heads_for(pending, stage->Some_0)
                &&& if pending is Respond {
                    effect == ReceiveEffect::<H>::Respond(true)
                } else {
                    !(effect is Respond || effect is ReadRequest)
                }
            },
        },
        ReceiveStep::Finished(r) => {
            &&& commands.len() == answers.len()
            &&& commands.len() > 0 ==> may_go_on(commands.drop_last(), answers.drop_last()) && (
            answers.last() ==> stage is Some)
            &&& r is Ok ==> commands.len() > 0 && answers.last() && stage == Some(Stage::Completed)
        },
    }
}

proof fn lemma_step_is_in_turn<H: Host>(
    effect: ReceiveEffect<H>,
    pending: ReceivePending<H>,
    input: ReceiveInput<H>,
    commands: Seq<Command>,
    answers: Seq<bool>,
)
    requires
        is_in_turn(ReceiveStep::Do(effect, pending), commands, answers),
        pending.accepts(input.outcome),
    ensures
        is_in_turn(
            input.monitor.receive(input.session, pending, input.outcome).2,
            match input.outcome {
                ReceiveOutcome::Request(command, _) => commands.push(command),
                _ => commands,
            },
            match effect {
                ReceiveEffect::Respond(well) => answers.push(well),
                _ => answers,
            },
        ),
{
    assert(Stage::Established.after_all(Seq::empty()) == Some(Stage::Established));
    assert(commands.len() == 0 ==> commands =~= Seq::empty());
    if let ReceiveOutcome::Request(command, length) = input.outcome {
        assert(commands.push(command).drop_last() =~= commands);
        assert(commands.push(command).last() == command);
    }
    if let ReceiveEffect::Respond(well) = effect {
        assert(answers.push(well).drop_last() =~= answers);
        assert(answers.push(well).last() == well);
    }
    if pending is Request && commands.len() > 0 {
        assert(answers.drop_last().len() == answers.len() - 1);
    }
}

proof fn lemma_run_is_in_turn<H: Host>(
    m: VmmModel<H>,
    s: SessionModel<H>,
    inputs: Seq<ReceiveInput<H>>,
)
    requires
        is_receive_run(m.receive_start(s).1, inputs),
    ensures
        is_in_turn(
            receive_run(m.receive_start(s).1, inputs),
            commands_read(inputs),
            answers(m.receive_start(s).1, inputs),
        ),
    decreases inputs.len(),
{
    let first = m.receive_start(s).1;
    if inputs.len() > 0 {
        let before = inputs.drop_last();
        lemma_run_is_in_turn(m, s, before);
        if let ReceiveStep::Do(effect, pending) = receive_run(first, before) {
            lemma_step_is_in_turn(
                effect,
                pending,
                inputs.last(),
                commands_read(before),
                answers(first, before),
            );
        }
    }
}

proof fn lemma_prefixes_go_on(commands: Seq<Command>, i: int)
    requires
        Stage::Established.after_all(commands) matches Some(stage) && !stage.is_finished(),
        0 <= i <= commands.len(),
    ensures
        Stage::Established.after_all(commands.take(i)) matches Some(stage) && !stage.is_finished(),
    decreases commands.len(),
{
    if i == commands.len() {
        assert(commands.take(i) =~= commands);
    } else {
        lemma_prefixes_go_on(commands.drop_last(), i);
        assert(commands.drop_last().take(i) =~= commands.take(i));
    }
}

/// Over any run of a receiver, each command that was read gets exactly one
/// answer before the next is read or the run ends. A command is read only while
/// all before were handled and none of them was the last. The answer says that
/// a command was handled only if it might come when it did, and the migration
/// was received only if the last command completed it.
pub proof fn law_each_command_gets_one_answer<H: Host>(
    m: VmmModel<H>,
    s: SessionModel<H>,
    inputs: Seq<ReceiveInput<H>>,
    i: int,
)
    requires
        is_receive_run(m.receive_start(s).1, inputs),
    ensures
        ({
            let step = receive_run(m.receive_start(s).1, inputs);
            let read = commands_read(inputs);
            let answered = answers(m.receive_start(s).1, inputs);
            &&& read.len() == answered.len() + if owes_answer(step) {
                1int
            } else {
                0int
            }
            &&& 0 <= i < read.len() - 1 ==> {
                &&& answered[i]
                &&& Stage::Established.after_all(read.take(i + 1)) matches Some(stage)
                    && !stage.is_finished()
            }
            &&& 0 <= i < answered.len() && answered[i] ==> Stage::Established.after_all(
                read.take(i + 1),
            ) is Some
            &&& step matches ReceiveStep::Do(ReceiveEffect::ReadRequest, _) ==> may_go_on(
                read,
                answered,
            )
            &&& step == ReceiveStep::<H>::Finished(Ok(())) ==> Stage::Established.after_all(read)
                == Some(Stage::Completed) && answered.last()
        }),
{
    lemma_run_is_in_turn(m, s, inputs);
    let step = receive_run(m.receive_start(s).1, inputs);
    let read = commands_read(inputs);
    let answered = answers(m.receive_start(s).1, inputs);
    if 0 <= i < read.len() - 1 {
        assert(read.drop_last().take(i + 1) =~= read.take(i + 1));
        if may_go_on(read, answered) {
            lemma_prefixes_go_on(read, i + 1);
        } else {
            lemma_prefixes_go_on(read.drop_last(), i + 1);
            assert(answered.len() == read.len() ==> answered.drop_last()[i] == answered[i]);
        }
    }
    if i == read.len() - 1 {
        assert(read.take(i + 1) =~= read);
    }
}

/// When memory counts as sent, every chunk was taken, and if threads sent them
/// these have finished.
pub proof fn law_all_memory_is_sent(
    s: MemorySend,
    event: MemoryEvent,
    cancelled: bool,
    worker_failed: bool,
)
    requires
        s.wf(),
        s.accepts(event),
        s.after(event, cancelled, worker_failed).1 == MemoryStep::Done,
    ensures
        s.after(event, cancelled, worker_failed).0.taken == s.chunks,
        s.threads > 0 ==> event == MemoryEvent::Finished,
{
}

/// The number of notifications of threads that have nothing left.
pub open spec fn arrivals<E>(notifications: Seq<TryNotify<E>>) -> nat
    decreases notifications.len(),
{
    if notifications.len() == 0 {
        0
    } else {
        arrivals(notifications.drop_last()) + if notifications.last() matches TryNotify::Notified(
            SendMemoryThreadNotify::Gate,
        ) {
            1nat
        } else {
            0nat
        }
    }
}

/// The wait for threads after notifications.
pub open spec fn waited<E>(p: PendingData, notifications: Seq<TryNotify<E>>) -> PendingData
    decreases notifications.len(),
{
    if notifications.len() == 0 {
        p
    } else {
        waited(p, notifications.drop_last()).after(notifications.last()).0
    }
}

/// Whether the wait went on after each of the notifications.
pub open spec fn kept_waiting<E>(p: PendingData, notifications: Seq<TryNotify<E>>) -> bool
    decreases notifications.len(),
{
    notifications.len() == 0 || {
        &&& kept_waiting(p, notifications.drop_last())
        &&& waited(p, notifications.drop_last()).after(notifications.last()).1 is Poll
    }
}

proof fn lemma_wait_counts_arrivals<E>(threads: usize, notifications: Seq<TryNotify<E>>)
    requires
        threads > 0,
        kept_waiting(PendingData { threads, seen: 0 }, notifications),
    ensures
        ({
            let p = waited(PendingData { threads, seen: 0 }, notifications);
            &&& p.threads == threads
            &&& p.seen == arrivals(notifications)
            &&& p.wf()
        }),
    decreases notifications.len(),
{
    if notifications.len() > 0 {
        lemma_wait_counts_arrivals(threads, notifications.drop_last());
    }
}

/// The wait counts the threads that have nothing left, and ends well exactly
/// with the last of them.
pub proof fn law_wait_ends_with_the_last_thread<E>(
    threads: usize,
    notifications: Seq<TryNotify<E>>,
    next: TryNotify<E>,
)
    requires
        threads > 0,
        kept_waiting(PendingData { threads, seen: 0 }, notifications),
    ensures
        ({
            let p = waited(PendingData { threads, seen: 0 }, notifications);
            &&& p.threads == threads
            &&& p.seen == arrivals(notifications)
            &&& p.wf()
            &&& p.after(next).1 == WaitStep::<E>::OpenGate(Ok(())) <==> arrivals(
                notifications.push(next),
            ) == threads
        }),
{
    lemma_wait_counts_arrivals(threads, notifications);
    let all = notifications.push(next);
    assert(all.drop_last() =~= notifications);
    assert(all.last() == next);
    assert(arrivals(all) == arrivals(notifications) + if next matches TryNotify::Notified(
        SendMemoryThreadNotify::Gate,
    ) {
        1nat
    } else {
        0nat
    });
}

/// A keep-alive message comes before a read gives up.
pub proof fn law_writes_give_up_before_reads()
    ensures
        endpoint::MIGRATION_WRITE_TIMEOUT_MS < endpoint::MIGRATION_READ_TIMEOUT_MS,
{
}

} // verus!
