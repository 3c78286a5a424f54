//! The errors of a migration.
use vstd::prelude::*;

verus! {

/// Why a migration failed for a reason of its own.
#[derive(Clone, Copy, Debug, PartialEq, Eq, Structural)]
pub enum Reason {
    BadStartResponse,
    BadConfigResponse,
    BadMemoryResponse,
    BadStateResponse,
    BadCompleteResponse,
    TimedOut,
    TdxEnabled,
    LocalNeedsUnixSocket,
    LocalNeedsSharedMemory,
    DowntimeOutOfRange,
    DowntimeNotBelowTimeout,
    SendersDied,
    SendingThreadsDied,
    AlreadyMigrating,
    VmNotRunning,
    OnlyRunningVms,
    InvalidDestination,
    InvalidSource,
    UnexpectedCommand,
    OnlyMemoryCommands,
    UnsupportedSocket,
    NoDescriptor,
    ZoneSizeChanged,
    UnknownZone,
    NoZones,
    NoMigration,
    AbortedBySender,
}

impl Reason {
    /// The text for a user, as far as it does not depend on the request.
    pub fn message(&self) -> (r: &'static str)
        ensures
            r@ == match *self {
                Reason::BadStartResponse => "Error starting migration (got bad response)"@,
                Reason::BadConfigResponse => "Error during config migration (got bad response)"@,
                Reason::BadMemoryResponse =>
                    "Error during dirty memory migration (got bad response)"@,
                Reason::BadStateResponse => "Error during state migration (got bad response)"@,
                Reason::BadCompleteResponse => "Error completing migration (got bad response)"@,
                Reason::TimedOut => "Migration timed out"@,
                Reason::TdxEnabled => "Live Migration is not supported when TDX is enabled"@,
                Reason::LocalNeedsUnixSocket =>
                    "--local option is not supported with TCP sockets"@,
                Reason::LocalNeedsSharedMemory =>
                    "Local migration requires shared memory or hugepages enabled"@,
                Reason::DowntimeOutOfRange =>
                    "downtime_limit must be an integer in the range of 1 to 2000000 ms"@,
                Reason::DowntimeNotBelowTimeout =>
                    "downtime_limit must be less than migration_timeout"@,
                Reason::SendersDied => "All senders died unexpectedly."@,
                Reason::SendingThreadsDied => "All sending threads died?"@,
                Reason::AlreadyMigrating => "There is already an ongoing migration"@,
                Reason::VmNotRunning => "VM is not running"@,
                Reason::OnlyRunningVms => "Only running VMs can be migrated!"@,
                Reason::InvalidDestination => "Invalid destination"@,
                Reason::InvalidSource => "Invalid source"@,
                Reason::UnexpectedCommand => "Can't handle command in current state"@,
                Reason::OnlyMemoryCommands =>
                    "Dropping connection. Only Memory commands are allowed on additional connections"@,
                Reason::UnsupportedSocket => "Unsupported socket type"@,
                Reason::NoDescriptor => "Failed to receive socket"@,
                Reason::ZoneSizeChanged => "Size update of memory zone not allowed"@,
                Reason::UnknownZone =>
                    "Failed to associate new memory zone information to an existing zone"@,
                Reason::NoZones =>
                    "Updating memory zone data is forbidden as VM was instantiated without any zones"@,
                Reason::NoMigration => "There is no ongoing migration"@,
                Reason::AbortedBySender => "Migration was aborted by sender"@,
            },
    {
        match self {
            Reason::BadStartResponse => "Error starting migration (got bad response)",
            Reason::BadConfigResponse => "Error during config migration (got bad response)",
            Reason::BadMemoryResponse => "Error during dirty memory migration (got bad response)",
            Reason::BadStateResponse => "Error during state migration (got bad response)",
            Reason::BadCompleteResponse => "Error completing migration (got bad response)",
            Reason::TimedOut => "Migration timed out",
            Reason::TdxEnabled => "Live Migration is not supported when TDX is enabled",
            Reason::LocalNeedsUnixSocket => "--local option is not supported with TCP sockets",
            Reason::LocalNeedsSharedMemory =>
                "Local migration requires shared memory or hugepages enabled",
            Reason::DowntimeOutOfRange =>
                "downtime_limit must be an integer in the range of 1 to 2000000 ms",
            Reason::DowntimeNotBelowTimeout =>
                "downtime_limit must be less than migration_timeout",
            Reason::SendersDied => "All senders died unexpectedly.",
            Reason::SendingThreadsDied => "All sending threads died?",
            Reason::AlreadyMigrating => "There is already an ongoing migration",
            Reason::VmNotRunning => "VM is not running",
            Reason::OnlyRunningVms => "Only running VMs can be migrated!",
            Reason::InvalidDestination => "Invalid destination",
            Reason::InvalidSource => "Invalid source",
            Reason::UnexpectedCommand => "Can't handle command in current state",
            Reason::OnlyMemoryCommands =>
                "Dropping connection. Only Memory commands are allowed on additional connections",
            Reason::UnsupportedSocket => "Unsupported socket type",
            Reason::NoDescriptor => "Failed to receive socket",
            Reason::ZoneSizeChanged => "Size update of memory zone not allowed",
            Reason::UnknownZone =>
                "Failed to associate new memory zone information to an existing zone",
            Reason::NoZones =>
                "Updating memory zone data is forbidden as VM was instantiated without any zones",
            Reason::NoMigration => "There is no ongoing migration",
            Reason::AbortedBySender => "Migration was aborted by sender",
        }
    }
}

/// What went wrong: something here, or something outside.
#[derive(Debug)]
pub enum Failure<E> {
    Reason(Reason),
    Outside(E),
}

/// Why a migration failed.
#[derive(Debug)]
pub enum MigratableError<E> {
    /// The sender failed.
    MigrateSend(Failure<E>),
    /// The receiver failed.
    MigrateReceive(Failure<E>),
    /// The connection failed.
    MigrateSocket(E),
    /// The disks could not be unlocked.
    UnlockError(E),
    /// The migration was cancelled.
    Cancelled,
    /// The migration could not be cancelled.
    CancelMigration(Failure<E>),
    /// A migration was not received: the sender gave up, or it failed here.
    CompleteMigration(Option<Box<MigratableError<E>>>),
    /// A part of the migration has reported its own error.
    Outside(E),
}

} // verus!
