//! How a migration is going.
use vstd::prelude::*;

verus! {

/// How memory gets to the other host.
#[derive(Clone, Copy, Debug, PartialEq, Eq, Structural)]
pub enum TransportationMode {
    /// By descriptors, to a monitor on the same host.
    Local,
    /// By connections.
    Tcp(u32, bool),
}

/// What an ongoing migration is doing.
#[derive(Clone, Copy, Debug, PartialEq, Eq, Structural)]
pub enum MigrationStateOngoingPhase {
    Starting,
    MemoryFds,
    MemoryPrecopy,
    Completing,
}

/// How the memory of a running VM is being sent.
#[derive(Clone, Copy, Debug, PartialEq, Eq, Structural)]
pub struct MemoryTransmissionInfo {
    /// The memory iteration, which starts at zero.
    pub memory_iteration: u64,
    /// Memory bytes per second.
    pub memory_transmission_bps: u64,
    /// The total size of the VM's memory in bytes.
    pub memory_bytes_total: u64,
    /// The total size of transmitted bytes.
    pub memory_bytes_transmitted: u64,
    /// The amount of transmitted 4k pages.
    pub memory_pages_4k_transmitted: u64,
    /// The amount of remaining 4k pages for this iteration.
    pub memory_pages_4k_remaining_iteration: u64,
    /// The amount of remaining bytes for this iteration.
    pub memory_bytes_remaining_iteration: u64,
    /// The dirty rate in pages per second.
    pub memory_dirty_rate_pps: u64,
    /// The number of pages that are known not to change. They are not counted.
    pub memory_pages_constant_count: u64,
}

/// What an ongoing migration reports of itself.
#[derive(Clone, Copy, Debug, PartialEq, Eq, Structural)]
pub struct ProgressUpdate {
    pub phase: MigrationStateOngoingPhase,
    pub memory: Option<MemoryTransmissionInfo>,
    /// By how many percent the processors are slowed down.
    pub throttle_percent: Option<u8>,
    /// The calculated downtime in nanoseconds.
    pub calculated_downtime_ns: Option<u128>,
}

/// What became of a migration.
#[derive(Clone, Copy, Debug, PartialEq, Eq, Structural)]
pub enum MigrationState {
    Ongoing(MigrationStateOngoingPhase),
    Finished,
    Cancelled,
    Failed,
}

/// How a migration is going.
#[derive(Clone, Debug, PartialEq, Eq)]
pub struct MigrationProgress {
    pub transportation_mode: TransportationMode,
    /// The configured downtime in milliseconds.
    pub downtime_ms: u64,
    pub state: MigrationState,
    /// What was reported last, with its metrics.
    pub last_update: Option<ProgressUpdate>,
    /// What is told of the error that the migration has failed with.
    pub failure: Option<String>,
}

impl MigrationProgress {
    /// Whether the migration has not ended.
    pub open spec fn is_ongoing(self) -> bool {
        self.state is Ongoing
    }

    /// The same migration in another state.
    pub open spec fn marked(self, state: MigrationState) -> MigrationProgress {
        MigrationProgress { state, ..self }
    }

    /// The same migration after a report.
    pub open spec fn updated(self, update: ProgressUpdate) -> MigrationProgress {
        MigrationProgress {
            state: MigrationState::Ongoing(update.phase),
            last_update: Some(update),
            ..self
        }
    }

    /// The same migration after it has failed.
    pub open spec fn failed(self, text: String) -> MigrationProgress {
        MigrationProgress { state: MigrationState::Failed, failure: Some(text), ..self }
    }

    /// A migration that has just begun.
    pub open spec fn begun(transportation_mode: TransportationMode, downtime_ms: u64) -> Self {
        MigrationProgress {
            transportation_mode,
            downtime_ms,
            state: MigrationState::Ongoing(MigrationStateOngoingPhase::Starting),
            last_update: None,
            failure: None,
        }
    }

    /// A migration that has just begun.
    pub fn new(transportation_mode: TransportationMode, downtime_ms: u64) -> (r: Self)
        ensures
            r == MigrationProgress::begun(transportation_mode, downtime_ms),
    {
        MigrationProgress {
            transportation_mode,
            downtime_ms,
            state: MigrationState::Ongoing(MigrationStateOngoingPhase::Starting),
            last_update: None,
            failure: None,
        }
    }

    /// The same once more, for a user.
    pub fn duplicate(&self) -> (r: Self)
        ensures
            r == *self,
    {
        MigrationProgress {
            transportation_mode: self.transportation_mode,
            downtime_ms: self.downtime_ms,
            state: self.state,
            last_update: self.last_update,
            failure: match &self.failure {
                Some(text) => Some(text.clone()),
                None => None,
            },
        }
    }
}

} // verus!
