//! The errors of the monitor.
use crate::migration::error::MigratableError;
use vstd::prelude::*;

verus! {

/// Why a request failed. An outside error is kept as it is.
#[derive(Debug)]
pub enum VmError<E> {
    /// The VM is already created.
    VmAlreadyCreated,
    /// The VM is not created.
    VmNotCreated,
    /// The VM is not running.
    VmNotRunning,
    /// The VM is being migrated.
    VmMigrating,
    /// There is no configuration to boot from.
    VmMissingConfig,
    /// The snapshot's location is not valid text.
    InvalidRestoreSourceUrl,
    /// There can be only one vsock device.
    TooManyVsockDevices,
    /// There is no such device.
    NoDeviceToRemove(String),
    /// There is no disk to resize.
    ResizeDisk,
    /// There is no such memory zone.
    ResizeZone,
    /// The configuration is not valid.
    ConfigValidation(E),
    CreateConsoleDevices(E),
    ApplyLandlock(E),
    EventFdClone(E),
    Pause(E),
    Resume(E),
    Snapshot(E),
    SnapshotSend(E),
    Restore(MigratableError<E>),
    Coredump(E),
    SerializeJson(E),
    /// An operation of the VM itself failed.
    Vm(E),
}

/// Why the monitor, or one of its threads, failed.
#[derive(Debug)]
pub enum Error<E> {
    /// API request receive error
    ApiRequestRecv(E),
    /// API response send error
    ApiResponseSend(E),
    /// Cannot bind to the UNIX domain socket path
    Bind(E),
    /// Cannot clone EventFd.
    EventFdClone(E),
    /// Cannot create EventFd.
    EventFdCreate(E),
    /// Cannot read from EventFd.
    EventFdRead(E),
    /// Cannot create epoll context.
    Epoll(E),
    /// Cannot create HTTP thread
    HttpThreadSpawn(E),
    /// Cannot create D-Bus thread
    DBusThreadSpawn(E),
    /// Cannot start D-Bus session
    CreateDBusSession(E),
    /// Cannot create `event-monitor` thread
    EventMonitorThreadSpawn(E),
    /// Cannot handle the VM STDIN stream
    Stdin(VmError<E>),
    /// Cannot handle the VM pty stream
    Pty(VmError<E>),
    /// Cannot reboot the VM
    VmReboot(VmError<E>),
    /// Cannot shut the VM down
    VmShutdown(VmError<E>),
    /// Cannot create VMM thread
    VmmThreadSpawn(E),
    /// Cannot shut the VMM down
    VmmShutdown(VmError<E>),
    /// Cannot create seccomp filter
    CreateSeccompFilter(E),
    /// Cannot apply seccomp filter
    ApplySeccompFilter(E),
    /// Error activating virtio devices
    ActivateVirtioDevices(E),
    /// Error creating API server
    CreateApiServer(E),
    /// Error binding API server socket
    CreateApiServerSocket(E),
    /// Failed to start the GDB thread
    GdbThreadSpawn(E),
    /// GDB request receive error
    GdbRequestRecv(E),
    /// GDB response send error
    GdbResponseSend(E),
    /// Cannot spawn a signal handler thread
    SignalHandlerSpawn(E),
    /// Failed to join on threads
    ThreadCleanup(E),
    /// Cannot create Landlock object
    CreateLandlock(E),
    /// Cannot apply landlock based sandboxing
    ApplyLandlock(E),
    /// The failed part of the monitor has reported its own error.
    Outside(E),
}

impl<E> Error<E> {
    /// The text for a user, without that of the underlying error. A part that
    /// reports its own error has its own text.
    pub fn message(&self) -> (r: Option<&'static str>)
        ensures
            (match r {
                Some(text) => Some(text@),
                None => None,
            }) == match *self {
                Error::ApiRequestRecv(_) => Some("Error receiving API request"@),
                Error::ApiResponseSend(_) => Some("Error sending API request"@),
                Error::Bind(_) => Some("Error binding to UNIX domain socket"@),
                Error::EventFdClone(_) => Some("Error cloning EventFd"@),
                Error::EventFdCreate(_) => Some("Error creating EventFd"@),
                Error::EventFdRead(_) => Some("Error reading from EventFd"@),
                Error::Epoll(_) => Some("Error creating epoll context"@),
                Error::HttpThreadSpawn(_) => Some("Error spawning HTTP thread"@),
                Error::DBusThreadSpawn(_) => Some("Error spawning D-Bus thread"@),
                Error::CreateDBusSession(_) => Some("Error starting D-Bus session"@),
                Error::EventMonitorThreadSpawn(_) => Some("Error spawning `event-monitor` thread"@),
                Error::Stdin(_) => Some("Error handling VM stdin"@),
                Error::Pty(_) => Some("Error handling VM pty"@),
                Error::VmReboot(_) => Some("Error rebooting VM"@),
                Error::VmShutdown(_) => Some("Error shutting down VM"@),
                Error::VmmThreadSpawn(_) => Some("Error spawning VMM thread"@),
                Error::VmmShutdown(_) => Some("Error shutting down VMM"@),
                Error::CreateSeccompFilter(_) => Some("Error creating seccomp filter"@),
                Error::ApplySeccompFilter(_) => Some("Error applying seccomp filter"@),
                Error::ActivateVirtioDevices(_) => Some("Error activating virtio devices"@),
                Error::CreateApiServer(_) => Some("Error creating API server"@),
                Error::CreateApiServerSocket(_) => Some("Error creation API server's socket"@),
                Error::GdbThreadSpawn(_) => Some("Failed to start the GDB thread"@),
                Error::GdbRequestRecv(_) => Some("Error receiving GDB request"@),
                Error::GdbResponseSend(_) => Some("Error sending GDB request"@),
                Error::SignalHandlerSpawn(_) => Some("Cannot spawn a signal handler thread"@),
                Error::ThreadCleanup(_) => Some("Failed to join on threads"@),
                Error::CreateLandlock(_) => Some("Error creating landlock object"@),
                Error::ApplyLandlock(_) => Some("Error applying landlock"@),
                Error::Outside(_) => None,
            },
    {
        match self {
            Error::ApiRequestRecv(_) => Some("Error receiving API request"),
            Error::ApiResponseSend(_) => Some("Error sending API request"),
            Error::Bind(_) => Some("Error binding to UNIX domain socket"),
            Error::EventFdClone(_) => Some("Error cloning EventFd"),
            Error::EventFdCreate(_) => Some("Error creating EventFd"),
            Error::EventFdRead(_) => Some("Error reading from EventFd"),
            Error::Epoll(_) => Some("Error creating epoll context"),
            Error::HttpThreadSpawn(_) => Some("Error spawning HTTP thread"),
            Error::DBusThreadSpawn(_) => Some("Error spawning D-Bus thread"),
            Error::CreateDBusSession(_) => Some("Error starting D-Bus session"),
            Error::EventMonitorThreadSpawn(_) => Some("Error spawning `event-monitor` thread"),
            Error::Stdin(_) => Some("Error handling VM stdin"),
            Error::Pty(_) => Some("Error handling VM pty"),
            Error::VmReboot(_) => Some("Error rebooting VM"),
            Error::VmShutdown(_) => Some("Error shutting down VM"),
            Error::VmmThreadSpawn(_) => Some("Error spawning VMM thread"),
            Error::VmmShutdown(_) => Some("Error shutting down VMM"),
            Error::CreateSeccompFilter(_) => Some("Error creating seccomp filter"),
            Error::ApplySeccompFilter(_) => Some("Error applying seccomp filter"),
            Error::ActivateVirtioDevices(_) => Some("Error activating virtio devices"),
            Error::CreateApiServer(_) => Some("Error creating API server"),
            Error::CreateApiServerSocket(_) => Some("Error creation API server's socket"),
            Error::GdbThreadSpawn(_) => Some("Failed to start the GDB thread"),
            Error::GdbRequestRecv(_) => Some("Error receiving GDB request"),
            Error::GdbResponseSend(_) => Some("Error sending GDB request"),
            Error::SignalHandlerSpawn(_) => Some("Cannot spawn a signal handler thread"),
            Error::ThreadCleanup(_) => Some("Failed to join on threads"),
            Error::CreateLandlock(_) => Some("Error creating landlock object"),
            Error::ApplyLandlock(_) => Some("Error applying landlock"),
            Error::Outside(_) => None,
        }
    }
}

} // verus!
