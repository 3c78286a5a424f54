//! In which order a VM is sent.
use crate::migration::laws;
use crate::migration::laws::SendInput;
use crate::migration::memory;
use crate::migration::memory::MemoryRange;
use crate::migration::precopy;
use crate::migration::progress::MigrationStateOngoingPhase;
use crate::migration::send::SendEvent;
use crate::migration::send::SendParams;
use crate::migration::send::SendPhase;
use crate::migration::send::SenderModel;
use crate::vmm::state::PostMigrationLifecycleEvent;
use vstd::prelude::*;

verus! {

/// The phases in the order in which they come, the loop over the memory of a
/// running VM aside. A migration that was given up has left this order.
pub open spec fn rank(phase: SendPhase) -> int {
    match phase {
        SendPhase::SendAbandon | SendPhase::Ended => -1,
        SendPhase::Connect => 0,
        SendPhase::SendStart => 1,
        SendPhase::ReadStartResponse => 2,
        SendPhase::GenerateCpuid => 3,
        SendPhase::SendMemoryFds => 4,
        SendPhase::SendConfigRequest => 5,
        SendPhase::SendConfigData => 6,
        SendPhase::ReadConfigResponse => 7,
        SendPhase::StartMigration => 8,
        SendPhase::PauseLocalVm => 9,
        SendPhase::OpenConnections => 10,
        SendPhase::StartDirtyLog => 11,
        SendPhase::MeasureMemory => 12,
        SendPhase::ReadClock => 13,
        SendPhase::SendTimeoutAbandon => 14,
        SendPhase::ReadTimeoutResponse => 15,
        SendPhase::SetThrottle => 16,
        SendPhase::CollectRanges => 17,
        SendPhase::EstimateDowntime => 18,
        SendPhase::SendRanges => 19,
        SendPhase::StopThrottling => 20,
        SendPhase::PauseVm => 21,
        SendPhase::CollectLastRanges => 22,
        SendPhase::SendLastRanges => 23,
        SendPhase::StopDirtyLog => 24,
        SendPhase::ReleaseDiskLocks => 25,
        SendPhase::MarkShutdown => 26,
        SendPhase::ReadWish => 27,
        SendPhase::TakeSnapshot => 28,
        SendPhase::SendStateRequest => 29,
        SendPhase::SendStateData => 30,
        SendPhase::ReadStateResponse => 31,
        SendPhase::SendCompleteRequest => 32,
        SendPhase::ReadCompleteResponse => 33,
        SendPhase::StopDirtyLogAgain => 34,
        SendPhase::CompleteMigration => 35,
    }
}

/// Whether a migration cannot do without a phase. A migration to the same host
/// hands out descriptors and pauses the VM at once; one to another host sends
/// memory while the VM runs, and once more when it is paused.
pub open spec fn is_due(params: SendParams, phase: SendPhase) -> bool {
    match phase {
        SendPhase::GenerateCpuid => params.checks_cpuid,
        SendPhase::SendMemoryFds | SendPhase::PauseLocalVm => params.local,
        SendPhase::OpenConnections | SendPhase::StartDirtyLog | SendPhase::MeasureMemory
        | SendPhase::ReadClock | SendPhase::CollectRanges | SendPhase::SendRanges
        | SendPhase::StopThrottling | SendPhase::PauseVm | SendPhase::CollectLastRanges
        | SendPhase::SendLastRanges | SendPhase::StopDirtyLog | SendPhase::StopDirtyLogAgain =>
            !params.local,
        SendPhase::MarkShutdown => params.kvm,
        SendPhase::SendTimeoutAbandon | SendPhase::ReadTimeoutResponse | SendPhase::SetThrottle
        | SendPhase::EstimateDowntime | SendPhase::SendAbandon | SendPhase::Ended => false,
        _ => true,
    }
}

/// Whether a phase was worked on in the steps.
pub open spec fn was_done<E>(m: SenderModel, inputs: Seq<SendInput<E>>, phase: SendPhase) -> bool
    decreases inputs.len(),
{
    inputs.len() > 0 && {
        ||| laws::run(m, inputs.drop_last()).phase == phase
        ||| was_done(m, inputs.drop_last(), phase)
    }
}

/// What a step of the sender means for the order.
proof fn lemma_step_keeps_order<E>(
    m: SenderModel,
    event: SendEvent<E>,
    cancelled: bool,
    earlier: SendPhase,
)
    requires
        m.accepts(event),
        m.phase == SendPhase::EstimateDowntime ==> m.state.iteration > 0,
        m.phase == SendPhase::PauseLocalVm ==> m.params.local,
        rank(SendPhase::OpenConnections) <= rank(m.phase) <= rank(SendPhase::StopDirtyLog)
            ==> !m.params.local,
    ensures
        ({
            let next = m.next(event, cancelled).0;
            &&& next.params == m.params
            &&& next.phase == SendPhase::EstimateDowntime ==> next.state.iteration > 0
            &&& next.phase == SendPhase::PauseLocalVm ==> next.params.local
            &&& rank(SendPhase::OpenConnections) <= rank(next.phase) <= rank(
                SendPhase::StopDirtyLog,
            ) ==> !next.params.local
            &&& next.state.iteration > 0 ==> m.state.iteration > 0 || m.phase
                == SendPhase::SendRanges
            // Whatever is due before the next phase was due before this one, or
            // is this one.
            &&& is_due(m.params, earlier) && 0 <= rank(earlier) < rank(next.phase) && rank(m.phase)
                >= 0 ==> rank(earlier) < rank(m.phase) || earlier == m.phase || (earlier
                == SendPhase::SendRanges && m.phase == SendPhase::EstimateDowntime)
            &&& rank(m.phase) < 0 ==> rank(next.phase) < 0
        }),
{
}

proof fn lemma_run_keeps_order<E>(m: SenderModel, inputs: Seq<SendInput<E>>, earlier: SendPhase)
    requires
        m.phase == SendPhase::Connect,
        m.state == precopy::initial(),
        laws::is_run(m, inputs),
    ensures
        ({
            let now = laws::run(m, inputs);
            &&& now.params == m.params
            &&& now.phase == SendPhase::EstimateDowntime ==> now.state.iteration > 0
            &&& now.phase == SendPhase::PauseLocalVm ==> now.params.local
            &&& rank(SendPhase::OpenConnections) <= rank(now.phase) <= rank(
                SendPhase::StopDirtyLog,
            ) ==> !now.params.local
            &&& now.state.iteration > 0 ==> was_done(m, inputs, SendPhase::SendRanges)
            &&& is_due(m.params, earlier) && 0 <= rank(earlier) < rank(now.phase) ==> was_done(
                m,
                inputs,
                earlier,
            )
        }),
    decreases inputs.len(),
{
    if inputs.len() > 0 {
        let before = inputs.drop_last();
        lemma_run_keeps_order(m, before, earlier);
        lemma_step_keeps_order(
            laws::run(m, before),
            inputs.last().event,
            inputs.last().cancelled,
            earlier,
        );
    }
}

/// No phase is left out: when a phase begins, each phase that is due before it
/// was worked on. So the disks are unlocked and the snapshot is taken only of a
/// VM that was paused, the last memory is sent only after the VM was paused, and
/// only what was logged since memory was first sent can be missing by then.
pub proof fn law_no_phase_is_left_out<E>(
    m: SenderModel,
    inputs: Seq<SendInput<E>>,
    earlier: SendPhase,
)
    requires
        m.phase == SendPhase::Connect,
        m.state == precopy::initial(),
        laws::is_run(m, inputs),
        is_due(m.params, earlier),
        0 <= rank(earlier) < rank(laws::run(m, inputs).phase),
    ensures
        was_done(m, inputs, earlier),
{
    lemma_run_keeps_order(m, inputs, earlier);
}

proof fn lemma_success_comes_last<E>(m: SenderModel, event: SendEvent<E>, cancelled: bool)
    requires
        m.accepts(event),
        m.next(event, cancelled).1 matches Some(Ok(_)),
    ensures
        m.phase == SendPhase::CompleteMigration,
{
}

/// A migration that succeeds has gone through every phase that is due.
pub proof fn law_success_means_all_was_done<E>(
    m: SenderModel,
    inputs: Seq<SendInput<E>>,
    event: SendEvent<E>,
    cancelled: bool,
    phase: SendPhase,
)
    requires
        m.phase == SendPhase::Connect,
        m.state == precopy::initial(),
        laws::is_run(m, inputs),
        laws::run(m, inputs).accepts(event),
        laws::run(m, inputs).next(event, cancelled).1 matches Some(Ok(_)),
        is_due(m.params, phase),
    ensures
        phase == SendPhase::CompleteMigration || was_done(m, inputs, phase),
        laws::run(m, inputs).phase == SendPhase::CompleteMigration,
{
    let now = laws::run(m, inputs);
    lemma_success_comes_last(now, event, cancelled);
    assert(rank(phase) < 35 || phase == SendPhase::CompleteMigration);
    lemma_run_keeps_order(m, inputs, phase);
}

/// A migration never goes back, but for the loop over the memory of a running
/// VM. It can only go on, or be given up.
pub proof fn law_no_way_back<E>(m: SenderModel, event: SendEvent<E>, cancelled: bool)
    requires
        m.accepts(event),
        rank(m.phase) >= 0,
    ensures
        ({
            let next = m.next(event, cancelled).0;
            ||| rank(next.phase) > rank(m.phase)
            ||| rank(next.phase) < 0
            ||| m.phase == SendPhase::SendRanges && next.phase == SendPhase::ReadClock
        }),
{
}

/// What is measured first is the whole memory, which is reported as its size.
/// What is collected is what is sent, and what is reported as left to send. The
/// last ranges go in front of what was collected before and not sent.
pub proof fn law_collected_memory_is_what_is_sent<E>(
    m: SenderModel,
    ranges: Vec<MemoryRange>,
    cancelled: bool,
)
    requires
        m.accepts(SendEvent::<E>::Ranges(ranges)),
    ensures
        ({
            let next = m.next(SendEvent::<E>::Ranges(ranges), cancelled).0;
            &&& m.phase == SendPhase::MeasureMemory ==> next.state.memory_bytes_total
                == memory::total(ranges@) && next.ranges == m.ranges
            &&& m.phase == SendPhase::CollectRanges ==> {
                &&& next.ranges == ranges@
                &&& next.state.bytes_to_transmit == memory::total(ranges@)
                &&& next.state.memory_bytes_total == m.state.memory_bytes_total
                &&& next.phase == if m.state.iteration == 0 {
                    SendPhase::SendRanges
                } else {
                    SendPhase::EstimateDowntime
                }
            }
            &&& m.phase == SendPhase::CollectLastRanges ==> {
                &&& next.ranges == ranges@ + m.ranges
                &&& next.phase == SendPhase::SendLastRanges
            }
        }),
{
}

/// A guest that has asked for a reboot or a shutdown is stopped after the
/// iteration, whether the migration was cancelled or not, and what was just sent
/// is not sent again. Otherwise the next iteration follows.
pub proof fn law_wishes_end_the_loop<E>(
    m: SenderModel,
    postponed: bool,
    bytes_per_sec: u64,
    cancelled: bool,
)
    requires
        m.phase == SendPhase::SendRanges,
    ensures
        ({
            let next = m.next(SendEvent::<E>::Sent(postponed, bytes_per_sec), cancelled).0;
            &&& postponed ==> next.phase == SendPhase::StopThrottling && next.ranges.len() == 0
            &&& !postponed && cancelled ==> next.phase == SendPhase::SendAbandon
            &&& !postponed && !cancelled ==> next.phase == SendPhase::ReadClock
            &&& next.state.bytes_per_sec == bytes_per_sec
        }),
{
}

/// What users are told while memory is sent are the metrics: which iteration it
/// is, how much memory there is, how much was sent and how much is left in this
/// iteration, the throughput, the dirty rate, the throttling and the expected
/// downtime. The other reports only tell the phase.
pub proof fn law_reports_tell_the_metrics(m: SenderModel)
    ensures
        m.phase == SendPhase::SendRanges || m.phase == SendPhase::EstimateDowntime ==> {
            let r = m.report()->Some_0;
            let memory = r.memory->Some_0;
            &&& m.report() is Some && r.memory is Some
            &&& r.phase == MigrationStateOngoingPhase::MemoryPrecopy
            &&& r.throttle_percent == Some(m.state.throttle_percent)
            &&& r.calculated_downtime_ns == m.state.calculated_downtime_ns
            &&& memory.memory_iteration == m.state.iteration
            &&& memory.memory_bytes_total == m.state.memory_bytes_total
            &&& memory.memory_bytes_transmitted == m.state.total_transferred_bytes
            &&& memory.memory_pages_4k_transmitted == m.state.total_transferred_pages
            &&& memory.memory_bytes_remaining_iteration == m.state.bytes_to_transmit
            &&& memory.memory_pages_4k_remaining_iteration == m.state.pages_to_transmit
            &&& memory.memory_transmission_bps == m.state.bytes_per_sec
            &&& memory.memory_dirty_rate_pps == m.state.dirty_rate_pps
            &&& memory.memory_pages_constant_count == 0
        },
        m.phase == SendPhase::SendMemoryFds ==> m.report() is Some && m.report()->Some_0.phase
            == MigrationStateOngoingPhase::MemoryFds && m.report()->Some_0.memory is None,
        m.phase == SendPhase::ReleaseDiskLocks ==> m.report() is Some && m.report()->Some_0.phase
            == MigrationStateOngoingPhase::Completing && m.report()->Some_0.memory is None,
        m.phase != SendPhase::SendRanges && m.phase != SendPhase::EstimateDowntime && m.phase
            != SendPhase::SendMemoryFds && m.phase != SendPhase::ReleaseDiskLocks ==> m.report()
            is None,
{
}

/// The wish that the sender finds is the one that it keeps, and it is not asked
/// for anything else on the way.
pub proof fn law_wish_is_kept<E>(
    m: SenderModel,
    wish: Option<PostMigrationLifecycleEvent>,
    cancelled: bool,
)
    requires
        m.phase == SendPhase::ReadWish,
    ensures
        m.next(SendEvent::<E>::Wish(wish), cancelled).0 == (SenderModel {
            phase: SendPhase::TakeSnapshot,
            wish,
            ..m
        }),
{
}

/// Before anything was sent there is nothing to tell: every count is zero, no
/// downtime is known, and no processor is slowed down.
pub proof fn law_metrics_start_at_zero()
    ensures
        ({
            let s = precopy::initial();
            &&& s.iteration == 0 && s.throttle_percent == 0
            &&& s.bytes_to_transmit == 0 && s.pages_to_transmit == 0
            &&& s.total_transferred_bytes == 0 && s.total_transferred_pages == 0
            &&& s.memory_bytes_total == 0
            &&& s.bytes_per_sec == 0 && s.dirty_rate_pps == 0
            &&& s.calculated_downtime_ns is None
        }),
{
}

} // verus!
