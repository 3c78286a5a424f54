//! The sender of a migration.
//!
//! The sender goes through its phases one after the other. Each phase is one
//! thing to be done outside. Between most phases the sender looks whether the
//! migration was cancelled, and if so tells the receiver and stops. Once the
//! disks are unlocked it is too late for that.
use crate::migration::error::Failure;
use crate::migration::error::MigratableError;
use crate::migration::error::Reason;
use crate::migration::memory;
use crate::migration::memory::MemoryRange;
use crate::migration::precopy;
use crate::migration::precopy::MigrationStateInternal;
use crate::migration::progress::MigrationStateOngoingPhase;
use crate::migration::progress::ProgressUpdate;
use crate::vmm::state::PostMigrationLifecycleEvent;
use vstd::prelude::*;

verus! {

/// What decides how a migration is sent.
#[derive(Clone, Copy, Debug, PartialEq, Eq, Structural)]
pub struct SendParams {
    /// Whether the receiver is on the same host.
    pub local: bool,
    /// Whether the connection is a UNIX domain socket.
    pub unix: bool,
    /// The allowed downtime in milliseconds.
    pub downtime: u64,
    /// The timeout in seconds, zero if there is none.
    pub migration_timeout: u64,
    /// Whether the features of the processors are sent along.
    pub checks_cpuid: bool,
    /// Whether the VM is a TDX guest, and TDX is supported.
    pub tdx: bool,
    /// Whether the hypervisor is KVM.
    pub kvm: bool,
}

/// What is to be done next.
#[derive(Clone, Copy, Debug, PartialEq, Eq, Structural)]
pub enum SendPhase {
    Connect,
    SendStart,
    ReadStartResponse,
    /// Collect the features of the processors.
    GenerateCpuid,
    /// Send the descriptors of the memory.
    SendMemoryFds,
    SendConfigRequest,
    SendConfigData,
    ReadConfigResponse,
    /// Let the devices know that a migration has started.
    StartMigration,
    PauseLocalVm,
    /// Open additional connections for memory.
    OpenConnections,
    StartDirtyLog,
    /// Collect all ranges, to know how much memory there is.
    MeasureMemory,
    /// Look how long the migration runs, and how far the VM is throttled.
    ReadClock,
    /// Give up because of the timeout.
    SendTimeoutAbandon,
    ReadTimeoutResponse,
    /// Throttle the VM.
    SetThrottle,
    /// Collect the ranges to send: all memory, or what has changed.
    CollectRanges,
    /// Estimate the rates and the downtime.
    EstimateDowntime,
    /// Send the ranges while the VM runs.
    SendRanges,
    StopThrottling,
    PauseVm,
    /// Collect what has changed last.
    CollectLastRanges,
    /// Send the last ranges.
    SendLastRanges,
    StopDirtyLog,
    ReleaseDiskLocks,
    /// Let signal handlers know that threads come to their end.
    MarkShutdown,
    /// Look what the guest has asked for meanwhile.
    ReadWish,
    /// Take a snapshot that carries what the guest has asked for; see
    /// [`MigrationSender::snapshot_event`].
    TakeSnapshot,
    SendStateRequest,
    SendStateData,
    ReadStateResponse,
    SendCompleteRequest,
    ReadCompleteResponse,
    StopDirtyLogAgain,
    /// Let the devices know that the migration is complete.
    CompleteMigration,
    /// Tell the receiver that the migration was cancelled.
    SendAbandon,
    Ended,
}

/// How it went.
#[derive(Debug)]
pub enum SendEvent<E> {
    Done,
    Failed(E),
    /// It failed, or was cancelled, in a way that has its own error.
    Aborted(MigratableError<E>),
    /// Whether the receiver has handled the command.
    Response(bool),
    /// How many nanoseconds the migration runs, and by how many percent the
    /// VM is throttled.
    Clock(u128, u8),
    Ranges(Vec<MemoryRange>),
    /// The dirty rate in pages per second, and the expected downtime in
    /// nanoseconds.
    Estimate(u64, u128),
    /// The ranges were sent. The guest may have asked for something meanwhile,
    /// and the throughput was so many bytes per second.
    Sent(bool, u64),
    /// What the guest has asked for, if anything.
    Wish(Option<PostMigrationLifecycleEvent>),
}

/// The sender.
#[derive(Debug)]
pub struct MigrationSender {
    params: SendParams,
    phase: SendPhase,
    state: MigrationStateInternal,
    ranges: Vec<MemoryRange>,
    wish: Option<PostMigrationLifecycleEvent>,
}

/// The mathematical value of a [`MigrationSender`].
#[verifier::ext_equal]
pub ghost struct SenderModel {
    pub params: SendParams,
    pub phase: SendPhase,
    pub state: MigrationStateInternal,
    /// The ranges to send, or to send again.
    pub ranges: Seq<MemoryRange>,
    /// What the guest has asked for, as far as the sender has looked.
    pub wish: Option<PostMigrationLifecycleEvent>,
}

impl View for MigrationSender {
    type V = SenderModel;

    closed spec fn view(&self) -> SenderModel {
        SenderModel {
            params: self.params,
            phase: self.phase,
            state: self.state,
            ranges: self.ranges@,
            wish: self.wish,
        }
    }
}

/// The error for a phase that failed.
pub open spec fn phase_error<E>(phase: SendPhase, e: E) -> MigratableError<E> {
    match phase {
        SendPhase::Connect => MigratableError::MigrateSend(Failure::Outside(e)),
        SendPhase::OpenConnections => MigratableError::MigrateSend(Failure::Outside(e)),
        SendPhase::SendConfigData => MigratableError::MigrateSocket(e),
        SendPhase::SendStateData => MigratableError::MigrateSocket(e),
        SendPhase::GenerateCpuid => MigratableError::MigrateSend(Failure::Outside(e)),
        SendPhase::ReleaseDiskLocks => MigratableError::UnlockError(e),
        _ => MigratableError::Outside(e),
    }
}

/// The reason if the receiver could not handle the command of a phase.
pub open spec fn response_reason(phase: SendPhase) -> Reason {
    match phase {
        SendPhase::ReadStartResponse => Reason::BadStartResponse,
        SendPhase::ReadConfigResponse => Reason::BadConfigResponse,
        SendPhase::ReadStateResponse => Reason::BadStateResponse,
        SendPhase::ReadCompleteResponse => Reason::BadCompleteResponse,
        _ => Reason::TimedOut,
    }
}

impl SenderModel {
    /// On to another phase.
    pub open spec fn goto<E>(self, phase: SendPhase) -> (
        SenderModel,
        Option<Result<(), MigratableError<E>>>,
    ) {
        (SenderModel { phase, ..self }, None)
    }

    /// The end.
    pub open spec fn end<E>(self, r: Result<(), MigratableError<E>>) -> (
        SenderModel,
        Option<Result<(), MigratableError<E>>>,
    ) {
        (SenderModel { phase: SendPhase::Ended, ..self }, Some(r))
    }

    /// The end, for a reason here.
    pub open spec fn stop<E>(self, reason: Reason) -> (
        SenderModel,
        Option<Result<(), MigratableError<E>>>,
    ) {
        self.end(Err(MigratableError::MigrateSend(Failure::Reason(reason))))
    }

    /// On to another phase, unless the migration was cancelled.
    pub open spec fn goto_unless<E>(self, cancelled: bool, phase: SendPhase) -> (
        SenderModel,
        Option<Result<(), MigratableError<E>>>,
    ) {
        if cancelled {
            self.goto(SendPhase::SendAbandon)
        } else {
            self.goto(phase)
        }
    }

    /// What follows the features of the processors.
    pub open spec fn after_cpuid<E>(self, cancelled: bool) -> (
        SenderModel,
        Option<Result<(), MigratableError<E>>>,
    ) {
        if cancelled {
            self.goto(SendPhase::SendAbandon)
        } else if !self.params.local {
            self.goto(SendPhase::SendConfigRequest)
        } else if self.params.unix {
            self.goto(SendPhase::SendMemoryFds)
        } else {
            self.stop(Reason::LocalNeedsUnixSocket)
        }
    }

    /// What follows the start.
    pub open spec fn after_start<E>(self, cancelled: bool) -> (
        SenderModel,
        Option<Result<(), MigratableError<E>>>,
    ) {
        if cancelled {
            self.goto(SendPhase::SendAbandon)
        } else if !self.params.checks_cpuid {
            self.after_cpuid(cancelled)
        } else if self.params.tdx {
            self.stop(Reason::TdxEnabled)
        } else {
            self.goto(SendPhase::GenerateCpuid)
        }
    }

    /// What follows the look at the clock: the VM is throttled, or not.
    pub open spec fn after_clock<E>(self) -> (
        SenderModel,
        Option<Result<(), MigratableError<E>>>,
    ) {
        let throttle = self.state.throttle(self.state.throttle_percent);
        if throttle != self.state.throttle_percent {
            SenderModel {
                state: MigrationStateInternal { throttle_percent: throttle, ..self.state },
                ..self
            }.goto(SendPhase::SetThrottle)
        } else {
            self.goto(SendPhase::CollectRanges)
        }
    }

    /// What follows a phase that was done, or a command that was handled.
    pub open spec fn done<E>(self, cancelled: bool) -> (
        SenderModel,
        Option<Result<(), MigratableError<E>>>,
    ) {
        match self.phase {
            SendPhase::Connect => self.goto(SendPhase::SendStart),
            SendPhase::SendStart => self.goto(SendPhase::ReadStartResponse),
            SendPhase::ReadStartResponse => self.after_start(cancelled),
            SendPhase::GenerateCpuid => self.after_cpuid(cancelled),
            SendPhase::SendMemoryFds => self.goto_unless(cancelled, SendPhase::SendConfigRequest),
            SendPhase::SendConfigRequest => self.goto(SendPhase::SendConfigData),
            SendPhase::SendConfigData => self.goto(SendPhase::ReadConfigResponse),
            SendPhase::ReadConfigResponse => self.goto_unless(cancelled, SendPhase::StartMigration),
            SendPhase::StartMigration => if self.params.local {
                self.goto(SendPhase::PauseLocalVm)
            } else {
                self.goto(SendPhase::OpenConnections)
            },
            SendPhase::PauseLocalVm => self.goto_unless(cancelled, SendPhase::ReleaseDiskLocks),
            SendPhase::OpenConnections => match precopy::bad_limits(
                self.params.downtime,
                self.params.migration_timeout,
            ) {
                Some(reason) => self.stop(reason),
                None => self.goto(SendPhase::StartDirtyLog),
            },
            SendPhase::StartDirtyLog => self.goto(SendPhase::MeasureMemory),
            SendPhase::SendTimeoutAbandon => self.goto(SendPhase::ReadTimeoutResponse),
            SendPhase::ReadTimeoutResponse => self.after_clock(),
            SendPhase::SetThrottle => self.goto(SendPhase::CollectRanges),
            SendPhase::StopThrottling => self.goto(SendPhase::PauseVm),
            SendPhase::PauseVm => self.goto(SendPhase::CollectLastRanges),
            SendPhase::StopDirtyLog => self.goto_unless(cancelled, SendPhase::ReleaseDiskLocks),
            SendPhase::ReleaseDiskLocks => if self.params.kvm {
                self.goto(SendPhase::MarkShutdown)
            } else {
                self.goto(SendPhase::ReadWish)
            },
            SendPhase::MarkShutdown => self.goto(SendPhase::ReadWish),
            SendPhase::TakeSnapshot => self.goto(SendPhase::SendStateRequest),
            SendPhase::SendStateRequest => self.goto(SendPhase::SendStateData),
            SendPhase::SendStateData => self.goto(SendPhase::ReadStateResponse),
            SendPhase::ReadStateResponse => self.goto(SendPhase::SendCompleteRequest),
            SendPhase::SendCompleteRequest => self.goto(SendPhase::ReadCompleteResponse),
            SendPhase::ReadCompleteResponse => if self.params.local {
                self.goto(SendPhase::CompleteMigration)
            } else {
                self.goto(SendPhase::StopDirtyLogAgain)
            },
            SendPhase::StopDirtyLogAgain => self.goto(SendPhase::CompleteMigration),
            SendPhase::SendAbandon => self.end(Err(MigratableError::Cancelled)),
            _ => self.end(Ok(())),
        }
    }

    /// What follows new ranges. The last ones come on top of those that were
    /// collected before and not sent.
    pub open spec fn collected<E>(self, ranges: Seq<MemoryRange>, cancelled: bool) -> (
        SenderModel,
        Option<Result<(), MigratableError<E>>>,
    ) {
        if self.phase == SendPhase::MeasureMemory {
            SenderModel {
                state: MigrationStateInternal {
                    memory_bytes_total: memory::total(ranges) as u64,
                    ..self.state
                },
                ..self
            }.goto_unless(cancelled, SendPhase::ReadClock)
        } else if self.phase == SendPhase::CollectLastRanges {
            SenderModel { ranges: ranges + self.ranges, ..self }.goto(SendPhase::SendLastRanges)
        } else {
            SenderModel {
                ranges,
                state: self.state.planned(memory::total(ranges) as u64),
                ..self
            }.goto(
                if self.state.iteration > 0 {
                    SendPhase::EstimateDowntime
                } else {
                    SendPhase::SendRanges
                },
            )
        }
    }

    /// What follows ranges that were sent.
    pub open spec fn sent<E>(self, postponed: bool, bytes_per_sec: u64, cancelled: bool) -> (
        SenderModel,
        Option<Result<(), MigratableError<E>>>,
    ) {
        if self.phase == SendPhase::SendLastRanges {
            SenderModel {
                state: self.state.planned(memory::total(self.ranges) as u64).transmitted(),
                ..self
            }.goto(SendPhase::StopDirtyLog)
        } else {
            let next = SenderModel {
                state: self.state.transmitted().iterated(bytes_per_sec),
                ..self
            };
            if postponed {
                // What was sent need not be sent again.
                SenderModel { ranges: Seq::empty(), ..next }.goto(SendPhase::StopThrottling)
            } else {
                next.goto_unless(cancelled, SendPhase::ReadClock)
            }
        }
    }

    /// Whether an event is one that the present phase can have.
    pub open spec fn accepts<E>(self, event: SendEvent<E>) -> bool {
        match event {
            SendEvent::Failed(_) => true,
            SendEvent::Aborted(_) => true,
            SendEvent::Response(_) => self.phase == SendPhase::ReadStartResponse || self.phase
                == SendPhase::ReadConfigResponse || self.phase == SendPhase::ReadTimeoutResponse
                || self.phase == SendPhase::ReadStateResponse || self.phase
                == SendPhase::ReadCompleteResponse,
            SendEvent::Clock(_, _) => self.phase == SendPhase::ReadClock,
            SendEvent::Ranges(ranges) => {
                ||| (self.phase == SendPhase::MeasureMemory || self.phase
                    == SendPhase::CollectRanges) && memory::total(ranges@) <= u64::MAX
                ||| self.phase == SendPhase::CollectLastRanges && memory::total(
                    ranges@ + self.ranges,
                ) <= u64::MAX
            },
            SendEvent::Estimate(_, _) => self.phase == SendPhase::EstimateDowntime,
            SendEvent::Wish(_) => self.phase == SendPhase::ReadWish,
            SendEvent::Sent(_, _) => {
                ||| self.phase == SendPhase::SendRanges && self.state.has_room()
                ||| self.phase == SendPhase::SendLastRanges && memory::total(self.ranges)
                    <= u64::MAX && self.state.planned(
                    memory::total(self.ranges) as u64,
                ).has_room()
            },
            SendEvent::Done => !(self.phase == SendPhase::ReadStartResponse || self.phase
                == SendPhase::ReadConfigResponse || self.phase == SendPhase::ReadTimeoutResponse
                || self.phase == SendPhase::ReadStateResponse || self.phase
                == SendPhase::ReadCompleteResponse || self.phase == SendPhase::ReadClock
                || self.phase == SendPhase::MeasureMemory || self.phase == SendPhase::CollectRanges
                || self.phase == SendPhase::CollectLastRanges || self.phase
                == SendPhase::EstimateDowntime
                || self.phase == SendPhase::SendRanges || self.phase == SendPhase::SendLastRanges
                || self.phase == SendPhase::ReadWish || self.phase == SendPhase::Ended),
        }
    }

    /// What follows an event, where `cancelled` says whether the migration was
    /// cancelled by then.
    pub open spec fn next<E>(self, event: SendEvent<E>, cancelled: bool) -> (
        SenderModel,
        Option<Result<(), MigratableError<E>>>,
    ) {
        match event {
            SendEvent::Failed(e) => self.end(Err(phase_error(self.phase, e))),
            SendEvent::Aborted(e) => self.end(Err(e)),
            SendEvent::Done => self.done(cancelled),
            SendEvent::Response(handled) => if handled {
                self.done(cancelled)
            } else {
                self.stop(response_reason(self.phase))
            },
            SendEvent::Clock(elapsed_ns, throttle) => {
                let next = SenderModel {
                    state: MigrationStateInternal { throttle_percent: throttle, ..self.state },
                    ..self
                };
                if precopy::is_timed_out(elapsed_ns, self.params.migration_timeout) {
                    next.goto(SendPhase::SendTimeoutAbandon)
                } else {
                    next.after_clock()
                }
            },
            SendEvent::Ranges(ranges) => self.collected(ranges@, cancelled),
            SendEvent::Estimate(rate, downtime_ns) => SenderModel {
                state: MigrationStateInternal {
                    dirty_rate_pps: rate,
                    calculated_downtime_ns: Some(downtime_ns),
                    ..self.state
                },
                ..self
            }.goto(
                if precopy::within_limit(downtime_ns, self.params.downtime) {
                    SendPhase::StopThrottling
                } else {
                    SendPhase::SendRanges
                },
            ),
            SendEvent::Sent(postponed, bytes_per_sec) => self.sent(
                postponed,
                bytes_per_sec,
                cancelled,
            ),
            SendEvent::Wish(wish) => SenderModel { wish, ..self }.goto(SendPhase::TakeSnapshot),
        }
    }

    /// What is reported when a phase begins, if anything is.
    pub open spec fn report(self) -> Option<ProgressUpdate> {
        match self.phase {
            SendPhase::SendMemoryFds => Some(plain_report(MigrationStateOngoingPhase::MemoryFds)),
            SendPhase::EstimateDowntime | SendPhase::SendRanges => Some(
                ProgressUpdate {
                    phase: MigrationStateOngoingPhase::MemoryPrecopy,
                    memory: Some(self.state.transmission()),
                    throttle_percent: Some(self.state.throttle_percent),
                    calculated_downtime_ns: self.state.calculated_downtime_ns,
                },
            ),
            SendPhase::ReleaseDiskLocks => Some(
                plain_report(MigrationStateOngoingPhase::Completing),
            ),
            _ => None,
        }
    }
}

/// A report without metrics.
pub open spec fn plain_report(phase: MigrationStateOngoingPhase) -> ProgressUpdate {
    ProgressUpdate { phase, memory: None, throttle_percent: None, calculated_downtime_ns: None }
}

fn without_metrics(phase: MigrationStateOngoingPhase) -> (r: ProgressUpdate)
    ensures
        r == plain_report(phase),
{
    ProgressUpdate { phase, memory: None, throttle_percent: None, calculated_downtime_ns: None }
}

impl MigrationSender {
    /// A sender that has not begun.
    pub fn new(params: SendParams) -> (r: MigrationSender)
        ensures
            r@ == (SenderModel {
                params,
                phase: SendPhase::Connect,
                state: precopy::initial(),
                ranges: Seq::empty(),
                wish: None,
            }),
    {
        MigrationSender {
            params,
            phase: SendPhase::Connect,
            state: MigrationStateInternal::new(),
            ranges: Vec::new(),
            wish: None,
        }
    }

    /// What is to be done next.
    pub fn phase(&self) -> (r: SendPhase)
        ensures
            r == self@.phase,
    {
        self.phase
    }

    /// The metrics.
    pub fn state(&self) -> (r: MigrationStateInternal)
        ensures
            r == self@.state,
    {
        self.state
    }

    /// The ranges to send.
    pub fn ranges(&self) -> (r: &[MemoryRange])
        ensures
            r@ == self@.ranges,
    {
        self.ranges.as_slice()
    }

    /// What the guest has asked for, which the snapshot carries to the
    /// receiver.
    pub fn snapshot_event(&self) -> (r: Option<PostMigrationLifecycleEvent>)
        ensures
            r == self@.wish,
    {
        self.wish
    }

    /// Whether all memory is to be collected, or only what has changed.
    pub fn is_first_iteration(&self) -> (r: bool)
        ensures
            r == (self@.state.iteration == 0),
    {
        self.state.iteration == 0
    }

    /// What is reported of the migration when a phase begins, if anything is.
    pub fn progress(&self) -> (r: Option<ProgressUpdate>)
        ensures
            r == self@.report(),
    {
        match self.phase {
            SendPhase::SendMemoryFds => Some(
                without_metrics(MigrationStateOngoingPhase::MemoryFds),
            ),
            SendPhase::EstimateDowntime | SendPhase::SendRanges => Some(
                ProgressUpdate {
                    phase: MigrationStateOngoingPhase::MemoryPrecopy,
                    memory: Some(self.state.transmission_info()),
                    throttle_percent: Some(self.state.throttle_percent),
                    calculated_downtime_ns: self.state.calculated_downtime_ns,
                },
            ),
            SendPhase::ReleaseDiskLocks => Some(
                without_metrics(MigrationStateOngoingPhase::Completing),
            ),
            _ => None,
        }
    }

    /// Whether an event is one that the present phase can have, and its numbers
    /// are not too large.
    pub fn is_acceptable<E>(&self, event: &SendEvent<E>) -> (r: bool)
        ensures
            r == self@.accepts(*event),
    {
        match event {
            SendEvent::Failed(_) => true,
            SendEvent::Aborted(_) => true,
            SendEvent::Response(_) => match self.phase {
                SendPhase::ReadStartResponse | SendPhase::ReadConfigResponse
                | SendPhase::ReadTimeoutResponse | SendPhase::ReadStateResponse
                | SendPhase::ReadCompleteResponse => true,
                _ => false,
            },
            SendEvent::Clock(_, _) => self.phase == SendPhase::ReadClock,
            SendEvent::Ranges(ranges) => match self.phase {
                SendPhase::MeasureMemory | SendPhase::CollectRanges => {
                    memory::checked_total(ranges.as_slice()).is_some()
                },
                SendPhase::CollectLastRanges => {
                    proof {
                        memory::lemma_total_add(ranges@, self.ranges@);
                    }
                    match (
                        memory::checked_total(ranges.as_slice()),
                        memory::checked_total(self.ranges.as_slice()),
                    ) {
                        (Some(a), Some(b)) => a <= u64::MAX - b,
                        _ => false,
                    }
                },
                _ => false,
            },
            SendEvent::Estimate(_, _) => self.phase == SendPhase::EstimateDowntime,
            SendEvent::Wish(_) => self.phase == SendPhase::ReadWish,
            SendEvent::Sent(_, _) => match self.phase {
                SendPhase::SendRanges => self.state.can_transmit(),
                SendPhase::SendLastRanges => match memory::checked_total(self.ranges.as_slice()) {
                    Some(n) => {
                        let mut planned = self.state;
                        planned.plan(n);
                        planned.can_transmit()
                    },
                    None => false,
                },
                _ => false,
            },
            SendEvent::Done => match self.phase {
                SendPhase::ReadStartResponse | SendPhase::ReadConfigResponse
                | SendPhase::ReadTimeoutResponse | SendPhase::ReadStateResponse
                | SendPhase::ReadCompleteResponse | SendPhase::ReadClock
                | SendPhase::MeasureMemory | SendPhase::CollectRanges
                | SendPhase::CollectLastRanges | SendPhase::EstimateDowntime
                | SendPhase::SendRanges | SendPhase::SendLastRanges | SendPhase::ReadWish
                | SendPhase::Ended => false,
                _ => true,
            },
        }
    }

    fn goto<E>(&mut self, phase: SendPhase) -> (r: Option<Result<(), MigratableError<E>>>)
        ensures
            (final(self)@, r) == old(self)@.goto::<E>(phase),
    {
        self.phase = phase;
        None
    }

    fn end<E>(&mut self, result: Result<(), MigratableError<E>>) -> (r: Option<
        Result<(), MigratableError<E>>,
    >)
        ensures
            (final(self)@, r) == old(self)@.end(result),
    {
        self.phase = SendPhase::Ended;
        Some(result)
    }

    fn stop<E>(&mut self, reason: Reason) -> (r: Option<Result<(), MigratableError<E>>>)
        ensures
            (final(self)@, r) == old(self)@.stop::<E>(reason),
    {
        self.end(Err(MigratableError::MigrateSend(Failure::Reason(reason))))
    }

    fn goto_unless<E>(&mut self, cancelled: bool, phase: SendPhase) -> (r: Option<
        Result<(), MigratableError<E>>,
    >)
        ensures
            (final(self)@, r) == old(self)@.goto_unless::<E>(cancelled, phase),
    {
        if cancelled {
            self.goto(SendPhase::SendAbandon)
        } else {
            self.goto(phase)
        }
    }

    fn after_cpuid<E>(&mut self, cancelled: bool) -> (r: Option<Result<(), MigratableError<E>>>)
        ensures
            (final(self)@, r) == old(self)@.after_cpuid::<E>(cancelled),
    {
        if cancelled {
            self.goto(SendPhase::SendAbandon)
        } else if !self.params.local {
            self.goto(SendPhase::SendConfigRequest)
        } else if self.params.unix {
            self.goto(SendPhase::SendMemoryFds)
        } else {
            self.stop(Reason::LocalNeedsUnixSocket)
        }
    }

    fn after_start<E>(&mut self, cancelled: bool) -> (r: Option<Result<(), MigratableError<E>>>)
        ensures
            (final(self)@, r) == old(self)@.after_start::<E>(cancelled),
    {
        if cancelled {
            self.goto(SendPhase::SendAbandon)
        } else if !self.params.checks_cpuid {
            self.after_cpuid(cancelled)
        } else if self.params.tdx {
            self.stop(Reason::TdxEnabled)
        } else {
            self.goto(SendPhase::GenerateCpuid)
        }
    }

    fn after_clock<E>(&mut self) -> (r: Option<Result<(), MigratableError<E>>>)
        ensures
            (final(self)@, r) == old(self)@.after_clock::<E>(),
    {
        let throttle: u8 = self.state.next_throttle(self.state.throttle_percent);
        if throttle != self.state.throttle_percent {
            self.state.throttle_percent = throttle;
            self.goto(SendPhase::SetThrottle)
        } else {
            self.goto(SendPhase::CollectRanges)
        }
    }

    fn done<E>(&mut self, cancelled: bool) -> (r: Option<Result<(), MigratableError<E>>>)
        ensures
            (final(self)@, r) == old(self)@.done::<E>(cancelled),
    {
        match self.phase {
            SendPhase::Connect => self.goto(SendPhase::SendStart),
            SendPhase::SendStart => self.goto(SendPhase::ReadStartResponse),
            SendPhase::ReadStartResponse => self.after_start(cancelled),
            SendPhase::GenerateCpuid => self.after_cpuid(cancelled),
            SendPhase::SendMemoryFds => self.goto_unless(cancelled, SendPhase::SendConfigRequest),
            SendPhase::SendConfigRequest => self.goto(SendPhase::SendConfigData),
            SendPhase::SendConfigData => self.goto(SendPhase::ReadConfigResponse),
            SendPhase::ReadConfigResponse => self.goto_unless(cancelled, SendPhase::StartMigration),
            SendPhase::StartMigration => {
                if self.params.local {
                    self.goto(SendPhase::PauseLocalVm)
                } else {
                    self.goto(SendPhase::OpenConnections)
                }
            },
            SendPhase::PauseLocalVm => self.goto_unless(cancelled, SendPhase::ReleaseDiskLocks),
            SendPhase::OpenConnections => {
                match precopy::check_limits(self.params.downtime, self.params.migration_timeout) {
                    Some(reason) => self.stop(reason),
                    None => self.goto(SendPhase::StartDirtyLog),
                }
            },
            SendPhase::StartDirtyLog => self.goto(SendPhase::MeasureMemory),
            SendPhase::SendTimeoutAbandon => self.goto(SendPhase::ReadTimeoutResponse),
            SendPhase::ReadTimeoutResponse => self.after_clock(),
            SendPhase::SetThrottle => self.goto(SendPhase::CollectRanges),
            SendPhase::StopThrottling => self.goto(SendPhase::PauseVm),
            SendPhase::PauseVm => self.goto(SendPhase::CollectLastRanges),
            SendPhase::StopDirtyLog => self.goto_unless(cancelled, SendPhase::ReleaseDiskLocks),
            SendPhase::ReleaseDiskLocks => {
                if self.params.kvm {
                    self.goto(SendPhase::MarkShutdown)
                } else {
                    self.goto(SendPhase::ReadWish)
                }
            },
            SendPhase::MarkShutdown => self.goto(SendPhase::ReadWish),
            SendPhase::TakeSnapshot => self.goto(SendPhase::SendStateRequest),
            SendPhase::SendStateRequest => self.goto(SendPhase::SendStateData),
            SendPhase::SendStateData => self.goto(SendPhase::ReadStateResponse),
            SendPhase::ReadStateResponse => self.goto(SendPhase::SendCompleteRequest),
            SendPhase::SendCompleteRequest => self.goto(SendPhase::ReadCompleteResponse),
            SendPhase::ReadCompleteResponse => {
                if self.params.local {
                    self.goto(SendPhase::CompleteMigration)
                } else {
                    self.goto(SendPhase::StopDirtyLogAgain)
                }
            },
            SendPhase::StopDirtyLogAgain => self.goto(SendPhase::CompleteMigration),
            SendPhase::SendAbandon => self.end(Err(MigratableError::Cancelled)),
            _ => self.end(Ok(())),
        }
    }

    fn collected<E>(&mut self, ranges: Vec<MemoryRange>, cancelled: bool) -> (r: Option<
        Result<(), MigratableError<E>>,
    >)
        requires
            old(self)@.accepts(SendEvent::<E>::Ranges(ranges)),
        ensures
            (final(self)@, r) == old(self)@.collected::<E>(ranges@, cancelled),
    {
        if self.phase == SendPhase::MeasureMemory {
            self.state.memory_bytes_total = memory::total_length(ranges.as_slice());
            self.goto_unless(cancelled, SendPhase::ReadClock)
        } else if self.phase == SendPhase::CollectLastRanges {
            let mut all: Vec<MemoryRange> = ranges;
            all.append(&mut self.ranges);
            self.ranges = all;
            self.goto(SendPhase::SendLastRanges)
        } else {
            let n: u64 = memory::total_length(ranges.as_slice());
            self.ranges = ranges;
            self.state.plan(n);
            if self.state.iteration > 0 {
                self.goto(SendPhase::EstimateDowntime)
            } else {
                self.goto(SendPhase::SendRanges)
            }
        }
    }

    fn sent<E>(&mut self, postponed: bool, bytes_per_sec: u64, cancelled: bool) -> (r: Option<
        Result<(), MigratableError<E>>,
    >)
        requires
            old(self)@.accepts(SendEvent::<E>::Sent(postponed, bytes_per_sec)),
        ensures
            (final(self)@, r) == old(self)@.sent::<E>(postponed, bytes_per_sec, cancelled),
    {
        if self.phase == SendPhase::SendLastRanges {
            let n: u64 = memory::total_length(self.ranges.as_slice());
            self.state.plan(n);
            self.state.note_transmitted();
            self.goto(SendPhase::StopDirtyLog)
        } else {
            self.state.note_transmitted();
            self.state.iteration = self.state.iteration + 1;
            self.state.bytes_per_sec = bytes_per_sec;
            if postponed {
                self.ranges = Vec::new();
                assert(self@.ranges =~= Seq::empty());
                self.goto(SendPhase::StopThrottling)
            } else {
                self.goto_unless(cancelled, SendPhase::ReadClock)
            }
        }
    }

    /// Goes on after an event; `cancelled` says whether the migration was
    /// cancelled by then. Returns how the migration went, once it has ended.
    pub fn step<E>(&mut self, event: SendEvent<E>, cancelled: bool) -> (r: Option<
        Result<(), MigratableError<E>>,
    >)
        requires
            old(self)@.accepts(event),
        ensures
            (final(self)@, r) == old(self)@.next(event, cancelled),
    {
        match event {
            SendEvent::Failed(e) => {
                let error = match self.phase {
                    SendPhase::Connect => MigratableError::MigrateSend(Failure::Outside(e)),
                    SendPhase::OpenConnections => MigratableError::MigrateSend(Failure::Outside(e)),
                    SendPhase::SendConfigData => MigratableError::MigrateSocket(e),
                    SendPhase::SendStateData => MigratableError::MigrateSocket(e),
                    SendPhase::GenerateCpuid => MigratableError::MigrateSend(Failure::Outside(e)),
                    SendPhase::ReleaseDiskLocks => MigratableError::UnlockError(e),
                    _ => MigratableError::Outside(e),
                };
                self.end(Err(error))
            },
            SendEvent::Aborted(e) => self.end(Err(e)),
            SendEvent::Done => self.done(cancelled),
            SendEvent::Response(handled) => {
                if handled {
                    self.done(cancelled)
                } else {
                    let reason = match self.phase {
                        SendPhase::ReadStartResponse => Reason::BadStartResponse,
                        SendPhase::ReadConfigResponse => Reason::BadConfigResponse,
                        SendPhase::ReadStateResponse => Reason::BadStateResponse,
                        SendPhase::ReadCompleteResponse => Reason::BadCompleteResponse,
                        _ => Reason::TimedOut,
                    };
                    self.stop(reason)
                }
            },
            SendEvent::Clock(elapsed_ns, throttle) => {
                self.state.throttle_percent = throttle;
                if precopy::timed_out(elapsed_ns, self.params.migration_timeout) {
                    self.goto(SendPhase::SendTimeoutAbandon)
                } else {
                    self.after_clock()
                }
            },
            SendEvent::Ranges(ranges) => self.collected(ranges, cancelled),
            SendEvent::Estimate(rate, downtime_ns) => {
                self.state.dirty_rate_pps = rate;
                self.state.calculated_downtime_ns = Some(downtime_ns);
                if precopy::downtime_reached(downtime_ns, self.params.downtime) {
                    self.goto(SendPhase::StopThrottling)
                } else {
                    self.goto(SendPhase::SendRanges)
                }
            },
            SendEvent::Sent(postponed, bytes_per_sec) => self.sent(
                postponed,
                bytes_per_sec,
                cancelled,
            ),
            SendEvent::Wish(wish) => {
                self.wish = wish;
                self.goto(SendPhase::TakeSnapshot)
            },
        }
    }
}

} // verus!
