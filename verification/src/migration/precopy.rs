//! Sending the memory of a running VM.
//!
//! The whole memory is sent first, then what has changed meanwhile, and so on.
//! To make sure that this ends, the processors of the VM are slowed down more
//! and more.
use crate::migration::error::Reason;
use crate::migration::memory;
use crate::migration::progress::MemoryTransmissionInfo;
use vstd::prelude::*;

verus! {

/// Amount of iterations before auto-converging starts.
pub const AUTO_CONVERGE_ITERATION_DELAY: u64 = 2;

/// Step size in percent to increase the vCPU throttling.
pub const AUTO_CONVERGE_STEP_SIZE: u8 = 10;

/// Amount of iterations after that the vCPU throttling is increased.
pub const AUTO_CONVERGE_ITERATION_INCREASE: u64 = 2;

/// Maximum vCPU throttling value.
pub const AUTO_CONVERGE_MAX: u8 = 99;

/// The maximum allowed downtime: 2000 seconds, in milliseconds.
pub const MAX_MIGRATE_DOWNTIME: u64 = 2_000_000;

/// Metrics about the ongoing migration.
#[derive(Clone, Copy, Debug, PartialEq, Eq, Structural)]
pub struct MigrationStateInternal {
    /// The iteration number. It is strictly monotonically increasing.
    pub iteration: u64,
    /// The number of bytes that are to be transmitted in the current
    /// iteration.
    pub bytes_to_transmit: u64,
    /// `bytes_to_transmit` but as 4K pages.
    pub pages_to_transmit: u64,
    /// Total amount of transferred bytes across all iterations.
    pub total_transferred_bytes: u64,
    /// `total_transferred_bytes` but as 4K pages.
    pub total_transferred_pages: u64,
    /// The size of the whole memory in bytes.
    pub memory_bytes_total: u64,
    /// The measured throughput in bytes per second, rounded down.
    pub bytes_per_sec: u64,
    /// The dirty rate in pages per second (pps).
    pub dirty_rate_pps: u64,
    /// The calculated downtime in nanoseconds.
    pub calculated_downtime_ns: Option<u128>,
    /// By how many percent the processors are slowed down.
    pub throttle_percent: u8,
}

/// The metrics before anything was sent.
pub open spec fn initial() -> MigrationStateInternal {
    MigrationStateInternal {
        iteration: 0,
        bytes_to_transmit: 0,
        pages_to_transmit: 0,
        total_transferred_bytes: 0,
        total_transferred_pages: 0,
        memory_bytes_total: 0,
        bytes_per_sec: 0,
        dirty_rate_pps: 0,
        calculated_downtime_ns: None,
        throttle_percent: 0,
    }
}

impl MigrationStateInternal {
    /// Before anything was sent.
    pub fn new() -> (r: Self)
        ensures
            r == initial(),
    {
        Self {
            iteration: 0,
            bytes_to_transmit: 0,
            pages_to_transmit: 0,
            total_transferred_bytes: 0,
            total_transferred_pages: 0,
            memory_bytes_total: 0,
            bytes_per_sec: 0,
            dirty_rate_pps: 0,
            calculated_downtime_ns: None,
            throttle_percent: 0,
        }
    }

    /// Whether the throttling is increased in this iteration.
    pub open spec fn increases_throttle(self) -> bool {
        self.iteration >= AUTO_CONVERGE_ITERATION_DELAY && (self.iteration
            - AUTO_CONVERGE_ITERATION_DELAY) % (AUTO_CONVERGE_ITERATION_INCREASE as int) == 0
    }

    /// Whether the throttling is increased in this iteration.
    pub fn can_increase_autoconverge_step(&self) -> (r: bool)
        ensures
            r == self.increases_throttle(),
    {
        if self.iteration < AUTO_CONVERGE_ITERATION_DELAY {
            false
        } else {
            (self.iteration - AUTO_CONVERGE_ITERATION_DELAY) % AUTO_CONVERGE_ITERATION_INCREASE == 0
        }
    }

    /// The throttling for this iteration, where `current` is the present one.
    pub open spec fn throttle(self, current: u8) -> u8 {
        if self.increases_throttle() && current < AUTO_CONVERGE_MAX {
            if current + AUTO_CONVERGE_STEP_SIZE < AUTO_CONVERGE_MAX {
                (current + AUTO_CONVERGE_STEP_SIZE) as u8
            } else {
                AUTO_CONVERGE_MAX
            }
        } else {
            current
        }
    }

    /// The throttling for this iteration, where `current` is the present one.
    pub fn next_throttle(&self, current: u8) -> (r: u8)
        ensures
            r == self.throttle(current),
    {
        if self.can_increase_autoconverge_step() && current < AUTO_CONVERGE_MAX {
            let raised: u8 = current + AUTO_CONVERGE_STEP_SIZE;
            if raised < AUTO_CONVERGE_MAX {
                raised
            } else {
                AUTO_CONVERGE_MAX
            }
        } else {
            current
        }
    }

    /// The metrics with so many bytes to transmit.
    pub open spec fn planned(self, n: u64) -> MigrationStateInternal {
        MigrationStateInternal {
            bytes_to_transmit: n,
            pages_to_transmit: memory::pages(n as int) as u64,
            ..self
        }
    }

    /// Plans to transmit so many bytes.
    pub fn plan(&mut self, n: u64)
        ensures
            *final(self) == old(self).planned(n),
    {
        self.bytes_to_transmit = n;
        self.pages_to_transmit = memory::page_count(n);
    }

    /// Whether the totals do not run over with what is to be transmitted.
    pub open spec fn has_room(self) -> bool {
        &&& self.total_transferred_bytes + self.bytes_to_transmit <= u64::MAX
        &&& self.total_transferred_pages + self.pages_to_transmit <= u64::MAX
        &&& self.iteration < u64::MAX
    }

    /// Whether the totals do not run over with what is to be transmitted.
    pub fn can_transmit(&self) -> (r: bool)
        ensures
            r == self.has_room(),
    {
        self.total_transferred_bytes <= u64::MAX - self.bytes_to_transmit
            && self.total_transferred_pages <= u64::MAX - self.pages_to_transmit && self.iteration
            < u64::MAX
    }

    /// The metrics once all planned bytes were transmitted.
    pub open spec fn transmitted(self) -> MigrationStateInternal {
        MigrationStateInternal {
            total_transferred_bytes: (self.total_transferred_bytes + self.bytes_to_transmit) as u64,
            total_transferred_pages: (self.total_transferred_pages + self.pages_to_transmit) as u64,
            ..self
        }
    }

    /// Takes note that all planned bytes were transmitted.
    pub fn note_transmitted(&mut self)
        requires
            old(self).has_room(),
        ensures
            *final(self) == old(self).transmitted(),
    {
        self.total_transferred_bytes = self.total_transferred_bytes + self.bytes_to_transmit;
        self.total_transferred_pages = self.total_transferred_pages + self.pages_to_transmit;
    }

    /// The metrics in the next iteration, with the throughput of this one.
    pub open spec fn iterated(self, bytes_per_sec: u64) -> MigrationStateInternal {
        MigrationStateInternal {
            iteration: (self.iteration + 1) as u64,
            bytes_per_sec,
            ..self
        }
    }

    /// What is reported of the memory.
    pub open spec fn transmission(self) -> MemoryTransmissionInfo {
        MemoryTransmissionInfo {
            memory_iteration: self.iteration,
            memory_transmission_bps: self.bytes_per_sec,
            memory_bytes_total: self.memory_bytes_total,
            memory_bytes_transmitted: self.total_transferred_bytes,
            memory_pages_4k_transmitted: self.total_transferred_pages,
            memory_pages_4k_remaining_iteration: self.pages_to_transmit,
            memory_bytes_remaining_iteration: self.bytes_to_transmit,
            memory_dirty_rate_pps: self.dirty_rate_pps,
            memory_pages_constant_count: 0,
        }
    }

    /// What is reported of the memory.
    pub fn transmission_info(&self) -> (r: MemoryTransmissionInfo)
        ensures
            r == self.transmission(),
    {
        MemoryTransmissionInfo {
            memory_iteration: self.iteration,
            memory_transmission_bps: self.bytes_per_sec,
            memory_bytes_total: self.memory_bytes_total,
            memory_bytes_transmitted: self.total_transferred_bytes,
            memory_pages_4k_transmitted: self.total_transferred_pages,
            memory_pages_4k_remaining_iteration: self.pages_to_transmit,
            memory_bytes_remaining_iteration: self.bytes_to_transmit,
            memory_dirty_rate_pps: self.dirty_rate_pps,
            memory_pages_constant_count: 0,
        }
    }
}

/// Why the limits of a migration make no sense, if they do not. The downtime
/// is in milliseconds; the timeout is in seconds, and zero if there is none.
pub open spec fn bad_limits(downtime: u64, migration_timeout: u64) -> Option<Reason> {
    if downtime == 0 || downtime > MAX_MIGRATE_DOWNTIME {
        Some(Reason::DowntimeOutOfRange)
    } else if migration_timeout > 0 && downtime >= migration_timeout * 1000 {
        Some(Reason::DowntimeNotBelowTimeout)
    } else {
        None
    }
}

/// Checks the limits of a migration.
pub fn check_limits(downtime: u64, migration_timeout: u64) -> (r: Option<Reason>)
    ensures
        r == bad_limits(downtime, migration_timeout),
{
    if downtime == 0 || downtime > MAX_MIGRATE_DOWNTIME {
        return Some(Reason::DowntimeOutOfRange);
    }
    if migration_timeout > 0 && downtime as u128 >= migration_timeout as u128 * 1000 {
        return Some(Reason::DowntimeNotBelowTimeout);
    }
    None
}

/// Whether a migration that runs for so many nanoseconds has timed out. The
/// timeout is in seconds, and zero if there is none.
pub open spec fn is_timed_out(elapsed_ns: u128, migration_timeout: u64) -> bool {
    migration_timeout > 0 && elapsed_ns > migration_timeout * 1_000_000_000
}

/// Whether a migration has timed out.
pub fn timed_out(elapsed_ns: u128, migration_timeout: u64) -> (r: bool)
    ensures
        r == is_timed_out(elapsed_ns, migration_timeout),
{
    migration_timeout > 0 && elapsed_ns > migration_timeout as u128 * 1_000_000_000
}

/// Whether a downtime in nanoseconds is within the limit in milliseconds.
pub open spec fn within_limit(downtime_ns: u128, downtime: u64) -> bool {
    downtime_ns <= downtime * 1_000_000
}

/// Whether a downtime is within the limit.
pub fn downtime_reached(downtime_ns: u128, downtime: u64) -> (r: bool)
    ensures
        r == within_limit(downtime_ns, downtime),
{
    downtime_ns <= downtime as u128 * 1_000_000
}

} // verus!
