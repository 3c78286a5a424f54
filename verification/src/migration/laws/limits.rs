//! What the user's limits decide.
use crate::migration::error::Failure;
use crate::migration::error::MigratableError;
use crate::migration::error::Reason;
use crate::migration::precopy;
use crate::migration::precopy::MigrationStateInternal;
use crate::migration::send::SendEvent;
use crate::migration::send::SendPhase;
use crate::migration::send::SenderModel;
use vstd::prelude::*;

verus! {

/// The VM is stopped to send the rest exactly when the expected downtime is not
/// above the one that the user allows. Until then memory is sent while the VM
/// runs. The limit is in milliseconds, the estimate in nanoseconds.
pub proof fn law_allowed_downtime_decides<E>(
    m: SenderModel,
    rate: u64,
    downtime_ns: u128,
    cancelled: bool,
)
    requires
        m.phase == SendPhase::EstimateDowntime,
    ensures
        ({
            let (next, r) = m.next(SendEvent::<E>::Estimate(rate, downtime_ns), cancelled);
            &&& r is None
            &&& next.phase == if downtime_ns <= m.params.downtime * 1_000_000 {
                SendPhase::StopThrottling
            } else {
                SendPhase::SendRanges
            }
            &&& next.state.calculated_downtime_ns == Some(downtime_ns)
            &&& next.state.dirty_rate_pps == rate
            &&& next.ranges == m.ranges
            &&& next.params == m.params
        }),
        precopy::within_limit(downtime_ns, m.params.downtime) <==> downtime_ns <= m.params.downtime
            * 1_000_000,
{
}

/// A user who allows more downtime gets at most as long a migration: an
/// estimate between two limits stops the VM under the larger one only.
pub proof fn law_larger_limits_stop_the_vm_sooner<E>(
    m1: SenderModel,
    m2: SenderModel,
    rate: u64,
    downtime_ns: u128,
    cancelled: bool,
)
    requires
        m1.phase == SendPhase::EstimateDowntime,
        m2.phase == SendPhase::EstimateDowntime,
        m1.params.downtime * 1_000_000 < downtime_ns <= m2.params.downtime * 1_000_000,
    ensures
        m1.next(SendEvent::<E>::Estimate(rate, downtime_ns), cancelled).0.phase
            == SendPhase::SendRanges,
        m2.next(SendEvent::<E>::Estimate(rate, downtime_ns), cancelled).0.phase
            == SendPhase::StopThrottling,
{
}

/// A migration is given up exactly when it runs for longer than the user's
/// timeout, which is in seconds, and zero for none.
pub proof fn law_timeout_decides<E>(
    m: SenderModel,
    elapsed_ns: u128,
    throttle: u8,
    cancelled: bool,
)
    requires
        m.phase == SendPhase::ReadClock,
    ensures
        ({
            let (next, r) = m.next(SendEvent::<E>::Clock(elapsed_ns, throttle), cancelled);
            let timeout = m.params.migration_timeout;
            &&& r is None
            &&& next.phase == SendPhase::SendTimeoutAbandon <==> timeout > 0 && elapsed_ns > timeout
                * 1_000_000_000
            &&& next.phase != SendPhase::SendTimeoutAbandon ==> next.phase == SendPhase::SetThrottle
                || next.phase == SendPhase::CollectRanges
        }),
        precopy::is_timed_out(elapsed_ns, m.params.migration_timeout) <==> m.params.migration_timeout
            > 0 && elapsed_ns > m.params.migration_timeout * 1_000_000_000,
{
}

/// Limits make sense if the downtime is between 1 ms and 2000 s, and below the
/// timeout if there is one. A migration with other limits ends before any
/// memory is sent.
pub proof fn law_limits_that_make_sense<E>(m: SenderModel, cancelled: bool)
    requires
        m.phase == SendPhase::OpenConnections,
    ensures
        ({
            let (next, r) = m.next(SendEvent::<E>::Done, cancelled);
            let downtime = m.params.downtime;
            let timeout = m.params.migration_timeout;
            if downtime < 1 || downtime > 2_000_000 {
                &&& next.phase == SendPhase::Ended
                &&& r == Some(
                    Err::<(), MigratableError<E>>(
                        MigratableError::MigrateSend(Failure::Reason(Reason::DowntimeOutOfRange)),
                    ),
                )
                &&& precopy::bad_limits(downtime, timeout) == Some(Reason::DowntimeOutOfRange)
            } else if timeout > 0 && downtime >= timeout * 1000 {
                &&& next.phase == SendPhase::Ended
                &&& r == Some(
                    Err::<(), MigratableError<E>>(
                        MigratableError::MigrateSend(
                            Failure::Reason(Reason::DowntimeNotBelowTimeout),
                        ),
                    ),
                )
                &&& precopy::bad_limits(downtime, timeout) == Some(Reason::DowntimeNotBelowTimeout)
            } else {
                &&& next.phase == SendPhase::StartDirtyLog
                &&& r is None
                &&& precopy::bad_limits(downtime, timeout) is None
            }
        }),
{
}

/// From the third iteration on the VM is throttled by 10 percent more in every
/// second iteration, but never by more than 99 percent.
pub proof fn law_throttling_schedule(s: MigrationStateInternal, current: u8)
    requires
        current <= 99,
    ensures
        s.iteration < 2 || s.iteration % 2 == 1 ==> s.throttle(current) == current,
        s.iteration >= 2 && s.iteration % 2 == 0 && current <= 89 ==> s.throttle(current) == current
            + 10,
        s.iteration >= 2 && s.iteration % 2 == 0 && current > 89 ==> s.throttle(current) == 99,
        s.increases_throttle() <==> s.iteration >= 2 && s.iteration % 2 == 0,
{
}

/// The VM is throttled anew exactly when that is due, and by as much as is due,
/// starting from what it is throttled by at the moment.
pub proof fn law_throttling_is_set_when_due<E>(
    m: SenderModel,
    elapsed_ns: u128,
    throttle: u8,
    cancelled: bool,
)
    requires
        m.phase == SendPhase::ReadClock,
        throttle <= 99,
        m.params.migration_timeout == 0,
    ensures
        ({
            let next = m.next(SendEvent::<E>::Clock(elapsed_ns, throttle), cancelled).0;
            let due = m.state.iteration >= 2 && m.state.iteration % 2 == 0 && throttle < 99;
            &&& next.phase == if due {
                SendPhase::SetThrottle
            } else {
                SendPhase::CollectRanges
            }
            &&& next.state.throttle_percent == if !due {
                throttle as int
            } else if throttle <= 89 {
                throttle + 10
            } else {
                99
            }
            &&& next.state.iteration == m.state.iteration
        }),
{
}

/// A migration that was accepted goes on unless it is cancelled, or cannot be
/// sent at all: one with TDX where processors are compared, or one to the same
/// host by anything but a Unix socket. Processors are compared where that is
/// wanted; then descriptors are handed out to the same host, and nothing but
/// the configuration is sent to another one.
pub proof fn law_migrations_that_can_be_sent<E>(m: SenderModel, cancelled: bool)
    requires
        m.phase == SendPhase::ReadStartResponse || m.phase == SendPhase::GenerateCpuid,
    ensures
        ({
            let (next, r) = m.next(SendEvent::<E>::Response(true), cancelled);
            let compares = m.phase == SendPhase::ReadStartResponse && m.params.checks_cpuid;
            if cancelled {
                r is None && next.phase == SendPhase::SendAbandon
            } else if compares && m.params.tdx {
                r == Some(
                    Err::<(), MigratableError<E>>(
                        MigratableError::MigrateSend(Failure::Reason(Reason::TdxEnabled)),
                    ),
                )
            } else if compares {
                r is None && next.phase == SendPhase::GenerateCpuid
            } else if !m.params.local {
                r is None && next.phase == SendPhase::SendConfigRequest
            } else if m.params.unix {
                r is None && next.phase == SendPhase::SendMemoryFds
            } else {
                r == Some(
                    Err::<(), MigratableError<E>>(
                        MigratableError::MigrateSend(
                            Failure::Reason(Reason::LocalNeedsUnixSocket),
                        ),
                    ),
                )
            }
        }),
{
}

} // verus!
