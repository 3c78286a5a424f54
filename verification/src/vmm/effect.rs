//! What a request needs from outside.
use crate::vmm::config::Addition;
use crate::vmm::config::RestoredNetConfig;
use crate::vmm::config::VmConfig;
use crate::vmm::error::VmError;
use crate::vmm::host::Host;
use vstd::prelude::*;

verus! {

/// Something to be done outside, on behalf of a request.
pub enum Effect<H: Host> {
    /// Create the console devices of the present configuration.
    CreateConsole,
    /// Restrict the process to what the present configuration names.
    ApplyLandlock,
    /// Clone the event descriptors that a VM signals.
    CloneEventFds,
    /// Create a VM from the present configuration and console.
    CreateVm,
    /// Boot the VM.
    BootVm,
    /// Boot a VM that the monitor does not own yet, and hand it back.
    BootNewVm(H::Vm),
    PauseVm,
    ResumeVm,
    /// Advertise the location of the VM to the network.
    AnnounceVm,
    /// Take a snapshot of the VM.
    SnapshotVm,
    /// Send the snapshot that was taken.
    SendSnapshot(String),
    /// Dump the memory of the VM.
    CoredumpVm(String),
    ShutdownVm,
    /// Read the reset event away, if there is one.
    DrainResetEvent,
    /// Resize the memory and the balloon of the VM.
    ResizeVm(Option<u64>, Option<u64>),
    ResizeDisk(String, u64),
    ResizeZone(String, u64),
    /// Check the present configuration with the addition that is pending; see
    /// [`Pending::addition`].
    ValidateAddition,
    /// Add a device to the VM.
    HotAdd(Addition<H::Device>),
    /// Turn what the VM returned into text.
    SerializeInfo,
    /// Remove a device from the VM.
    RemoveDevice(String),
    /// Remove a device from the present configuration.
    RemoveFromConfig(String),
    /// Collect the counters of the VM.
    ReadCounters,
    PressPowerButton,
    InjectNmi,
    /// Read a configuration.
    FetchConfig(String),
    /// Check the configuration that is pending for a restore; see
    /// [`Pending::config`].
    ValidateRestore,
    /// Read a snapshot.
    FetchSnapshot(String),
    /// Compare the processors of the snapshot with those of this host for the
    /// configuration that is pending, with AMX enabled before if so said.
    CheckCpuid(bool),
    /// Create a VM from the snapshot.
    CreateRestoredVm(String, bool),
    /// Restore the rest of the VM.
    RestoreVm,
}

/// How it went.
pub enum Outcome<H: Host> {
    /// It was done.
    Done,
    /// It failed.
    Failed(H::Error),
    /// The console devices.
    Console(H::Console),
    /// The VM.
    Vm(H::Vm),
    /// A configuration.
    Config(VmConfig<H::Device>),
    /// Whether there was such a thing.
    Found(bool),
    /// Some bytes.
    Bytes(Vec<u8>),
}

/// Which error stands for the failure of a single effect.
#[derive(Clone, Copy, Debug, PartialEq, Eq, Structural)]
pub enum Single {
    Pause,
    Resume,
    Coredump,
    Vm,
}

/// What follows a shutdown.
pub enum AfterShutdown<E> {
    /// The request is done.
    Reply,
    /// The configuration is deleted.
    Delete,
    /// The configuration is deleted, and a failed restore is reported.
    FailedRestore(VmError<E>),
}

/// How a request goes on once its effect has an outcome.
pub enum Pending<H: Host> {
    CreateConsole,
    CreateLandlock,
    BootConsole,
    BootEvents,
    BootCreate,
    BootBoot,
    Single(Single),
    Snapshot(String),
    SnapshotSend,
    Shutdown(AfterShutdown<H::Error>),
    RebootShutdown,
    RebootEvents,
    RebootDrain,
    RebootConsole,
    RebootCreate,
    RebootBoot,
    AddValidate(Addition<H::Device>),
    Info,
    Serialize,
    RemoveCold(String),
    RestoreConfig(String, bool, Option<Vec<RestoredNetConfig>>),
    RestoreValidate(String, bool, Option<Vec<RestoredNetConfig>>, VmConfig<H::Device>),
    RestoreSnapshot(String, bool, Option<Vec<RestoredNetConfig>>, VmConfig<H::Device>),
    RestoreCpuid(String, bool, Option<Vec<RestoredNetConfig>>, VmConfig<H::Device>),
    RestoreConsole(String, bool),
    RestoreEvents(String, bool),
    RestoreCreate,
    RestoreLandlock,
    RestoreVm,
}

/// The next step of a request.
pub enum Step<H: Host> {
    /// Do this, and go on with the outcome.
    Do(Effect<H>, Pending<H>),
    /// The request is done.
    Reply(Result<Option<Vec<u8>>, VmError<H::Error>>),
}

impl<H: Host> Pending<H> {
    /// Whether an outcome is one that the awaited effect can have.
    pub open spec fn accepts(self, outcome: Outcome<H>) -> bool {
        outcome is Failed || match self {
            Pending::CreateConsole | Pending::BootConsole | Pending::RebootConsole => outcome
                is Console,
            Pending::RestoreConsole(_, _) => outcome is Console,
            Pending::BootCreate | Pending::RebootCreate | Pending::RestoreCreate => outcome is Vm,
            Pending::RebootBoot => outcome is Vm,
            Pending::Serialize => outcome is Bytes,
            Pending::RemoveCold(_) => outcome is Found,
            Pending::RestoreConfig(_, _, _) => outcome is Config,
            _ => outcome is Done,
        }
    }

    /// Whether an outcome is one that the awaited effect can have.
    pub fn is_acceptable(&self, outcome: &Outcome<H>) -> (r: bool)
        ensures
            r == self.accepts(*outcome),
    {
        match outcome {
            Outcome::Failed(_) => true,
            Outcome::Console(_) => match self {
                Pending::CreateConsole => true,
                Pending::BootConsole => true,
                Pending::RebootConsole => true,
                Pending::RestoreConsole(_, _) => true,
                _ => false,
            },
            Outcome::Vm(_) => match self {
                Pending::BootCreate => true,
                Pending::RebootCreate => true,
                Pending::RebootBoot => true,
                Pending::RestoreCreate => true,
                _ => false,
            },
            Outcome::Bytes(_) => match self {
                Pending::Serialize => true,
                _ => false,
            },
            Outcome::Found(_) => match self {
                Pending::RemoveCold(_) => true,
                _ => false,
            },
            Outcome::Config(_) => match self {
                Pending::RestoreConfig(_, _, _) => true,
                _ => false,
            },
            Outcome::Done => match self {
                Pending::CreateConsole => false,
                Pending::BootConsole => false,
                Pending::RebootConsole => false,
                Pending::RestoreConsole(_, _) => false,
                Pending::BootCreate => false,
                Pending::RebootCreate => false,
                Pending::RebootBoot => false,
                Pending::RestoreCreate => false,
                Pending::Serialize => false,
                Pending::RemoveCold(_) => false,
                Pending::RestoreConfig(_, _, _) => false,
                _ => true,
            },
        }
    }

    /// The addition that is pending until it was checked.
    pub fn addition(&self) -> (r: Option<&Addition<H::Device>>)
        ensures
            match *self {
                Pending::AddValidate(addition) => r is Some && *r->Some_0 == addition,
                _ => r is None,
            },
    {
        match self {
            Pending::AddValidate(addition) => Some(addition),
            _ => None,
        }
    }

    /// The configuration that is pending until it was checked.
    pub fn config(&self) -> (r: Option<&VmConfig<H::Device>>)
        ensures
            match *self {
                Pending::RestoreValidate(_, _, _, config) => r is Some && *r->Some_0 == config,
                Pending::RestoreSnapshot(_, _, _, config) => r is Some && *r->Some_0 == config,
                Pending::RestoreCpuid(_, _, _, config) => r is Some && *r->Some_0 == config,
                _ => r is None,
            },
    {
        match self {
            Pending::RestoreValidate(_, _, _, config) => Some(config),
            Pending::RestoreSnapshot(_, _, _, config) => Some(config),
            Pending::RestoreCpuid(_, _, _, config) => Some(config),
            _ => None,
        }
    }
}

} // verus!
