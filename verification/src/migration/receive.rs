//! The receiver of a migration.
//!
//! The receiver answers one command after the other. Whatever goes wrong while
//! it handles a command is reported to the sender and ends the migration.
use crate::bytes;
use crate::migration::endpoint;
use crate::migration::endpoint::Listener;
use crate::migration::error::Failure;
use crate::migration::error::MigratableError;
use crate::migration::error::Reason;
use crate::migration::protocol::Command;
use crate::migration::protocol::Stage;
use crate::vmm::config;
use crate::vmm::config::ConfigModel;
use crate::vmm::config::MemoryZoneConfig;
use crate::vmm::config::RestoredNetConfig;
use crate::vmm::config::VmConfig;
use crate::vmm::config::ZoneError;
use crate::vmm::host::Host;
use crate::vmm::ownership::MaybeVmOwnership;
use crate::vmm::state::PostMigrationLifecycleEvent;
use crate::vmm::state::Vmm;
use crate::vmm::state::VmmModel;
use std::collections::HashMap;
use vstd::prelude::*;

verus! {

/// What a user says of a migration to receive.
#[derive(Debug)]
pub struct VmReceiveMigrationData {
    pub receiver_url: String,
    /// Whether there are certificates for TLS.
    pub tls: bool,
    /// New descriptors of network devices.
    pub net_fds: Vec<RestoredNetConfig>,
    /// Where the serial console is connected to on this host.
    pub tcp_serial_url: Option<String>,
    /// Where memory zones lie on this host.
    pub zones: Vec<MemoryZoneConfig>,
}

/// The receiver's state behind the migration protocol.
pub enum ReceiveMigrationState<H: Host> {
    /// The connection is established and no command has come yet.
    Established,
    /// The start command has come.
    Started,
    /// Descriptors for memory have come. This can only happen on UNIX domain
    /// sockets.
    MemoryFdsReceived,
    /// The configuration has come. The memory is kept around to be filled.
    Configured(H::ReceivedMemory),
    /// Memory is populated and the state has come. The VM is ready to go.
    StateReceived,
    /// The migration is successful.
    Completed,
    /// The migration could not complete.
    Aborted,
}

impl<H: Host> ReceiveMigrationState<H> {
    /// How far the migration has come.
    pub open spec fn stage(self) -> Stage {
        match self {
            ReceiveMigrationState::Established => Stage::Established,
            ReceiveMigrationState::Started => Stage::Started,
            ReceiveMigrationState::MemoryFdsReceived => Stage::MemoryFdsReceived,
            ReceiveMigrationState::Configured(_) => Stage::Configured,
            ReceiveMigrationState::StateReceived => Stage::StateReceived,
            ReceiveMigrationState::Completed => Stage::Completed,
            ReceiveMigrationState::Aborted => Stage::Aborted,
        }
    }

    /// Whether the migration has ended, well or not.
    pub fn finished(&self) -> (r: bool)
        ensures
            r == self.stage().is_finished(),
    {
        match self {
            ReceiveMigrationState::Completed => true,
            ReceiveMigrationState::Aborted => true,
            _ => false,
        }
    }
}

/// One migration that is being received.
pub struct ReceiveSession<H: Host> {
    pub data: VmReceiveMigrationData,
    /// Whether the connection is a UNIX domain socket.
    pub unix: bool,
    /// The slots of memory, with the files behind them.
    pub files: Vec<(u32, H::MemoryFile)>,
}

/// The mathematical value of a [`ReceiveSession`].
#[verifier::ext_equal]
pub ghost struct SessionModel<H: Host> {
    pub data: VmReceiveMigrationData,
    pub unix: bool,
    pub files: Seq<(u32, H::MemoryFile)>,
}

impl<H: Host> View for ReceiveSession<H> {
    type V = SessionModel<H>;

    open spec fn view(&self) -> SessionModel<H> {
        SessionModel { data: self.data, unix: self.unix, files: self.files@ }
    }
}

/// The files by slot. A later file for a slot takes the place of an earlier
/// one.
pub open spec fn files_by_slot<F>(files: Seq<(u32, F)>) -> Map<u32, F>
    decreases files.len(),
{
    if files.len() == 0 {
        Map::empty()
    } else {
        files_by_slot(files.drop_last()).insert(files.last().0, files.last().1)
    }
}

impl<H: Host> ReceiveSession<H> {
    /// A migration for which nothing has come yet.
    pub fn new(data: VmReceiveMigrationData, unix: bool) -> (r: Self)
        ensures
            r@ == (SessionModel::<H> { data, unix, files: Seq::empty() }),
    {
        ReceiveSession { data, unix, files: Vec::new() }
    }

    /// Hands out the files that have come, by slot.
    pub fn take_files(&mut self) -> (r: HashMap<u32, H::MemoryFile>)
        ensures
            r@ == files_by_slot(old(self)@.files),
            final(self)@ == (SessionModel { files: Seq::empty(), ..old(self)@ }),
    {
        broadcast use vstd::std_specs::hash::group_hash_axioms;

        let mut rest: Vec<(u32, H::MemoryFile)> = Vec::new();
        std::mem::swap(&mut rest, &mut self.files);
        let ghost all = rest@;
        let mut r: HashMap<u32, H::MemoryFile> = HashMap::new();
        let ghost mut n: int = 0;
        assert(all.take(0) =~= Seq::empty());
        assert(all.skip(0) =~= all);
        while rest.len() > 0
            invariant
                0 <= n <= all.len(),
                rest@ == all.skip(n),
                r@ == files_by_slot(all.take(n)),
            decreases rest@.len(),
        {
            broadcast use vstd::std_specs::hash::group_hash_axioms;

            let (slot, file) = rest.remove(0);
            proof {
                assert(all.take(n + 1).drop_last() =~= all.take(n));
                assert(all.take(n + 1).last() == (slot, file));
                assert(rest@ =~= all.skip(n + 1));
                n = n + 1;
            }
            r.insert(slot, file);
        }
        assert(all.take(n) =~= all);
        r
    }
}

/// Something to be done outside for the receiver.
pub enum ReceiveEffect<H: Host> {
    /// Listen at the given place.
    Listen,
    /// Load the certificates.
    LoadTls,
    /// Wait for the sender to connect.
    Accept,
    /// Read the next command.
    ReadRequest,
    /// Read a descriptor, and the slot that it belongs to.
    ReadMemoryFd,
    /// Read as many bytes.
    ReadPayload(u64),
    /// Turn the bytes into a configuration.
    ParseConfig,
    /// Compare the processors of the sender's host with those of this host for
    /// the configuration that is pending, with AMX enabled before if so said;
    /// see [`ReceivePending::config`].
    CheckCpuid(bool),
    /// Create the console devices of the present configuration.
    CreateConsole,
    /// Restrict the process to what the present configuration names.
    ApplyLandlock,
    /// Create the hypervisor's VM and its memory, with the files of the
    /// session.
    CreateMemory,
    /// Accept additional connections that fill the memory.
    OpenConnections(H::ReceivedMemory),
    /// Read a table of ranges with as many bytes.
    ReadTable(u64, H::ReceivedMemory),
    /// Fill the ranges of the table.
    FillMemory(H::ReceivedMemory),
    /// Turn the bytes into a snapshot.
    ParseSnapshot,
    /// Clone the event descriptors that a VM signals.
    CloneEventFds,
    /// Create a VM from the snapshot, with this memory.
    CreateVm(H::ReceivedMemory),
    /// Restore the VM from the snapshot.
    RestoreVm(H::Vm),
    /// Advertise the new location of the VM to the network.
    AnnounceVm,
    ResumeVm,
    WriteResetEvent,
    WriteGuestExitEvent,
    /// Tell the sender whether its command was handled.
    Respond(bool),
}

/// How it went.
pub enum ReceiveOutcome<H: Host> {
    Done,
    Failed(H::Error),
    /// A command and the length of what follows it.
    Request(Command, u64),
    /// The four bytes that came with a descriptor, if there was one.
    Descriptor([u8; 4], Option<H::MemoryFile>),
    Config(VmConfig<H::Device>),
    Console(H::Console),
    Memory(H::ReceivedMemory),
    /// What the guest asked for while it was being sent.
    Snapshot(Option<PostMigrationLifecycleEvent>),
    Vm(H::Vm),
}

/// How the receiver goes on once its effect has an outcome.
pub enum ReceivePending<H: Host> {
    /// Whether certificates are needed then.
    Listen(bool),
    LoadTls,
    Accept,
    Request(ReceiveMigrationState<H>),
    MemoryFd,
    ConfigPayload,
    ConfigParse,
    ConfigCpuid(VmConfig<H::Device>),
    ConfigConsole,
    ConfigLandlock,
    ConfigMemory,
    ConfigConnections,
    MemoryTable,
    MemoryFill,
    StatePayload(H::ReceivedMemory),
    StateParse(H::ReceivedMemory),
    StateEvents(H::ReceivedMemory),
    StateCreate,
    StateRestore,
    Announce,
    Complete,
    Respond(ReceiveMigrationState<H>),
    RespondError(MigratableError<H::Error>),
}

/// The next step of the receiver.
pub enum ReceiveStep<H: Host> {
    Do(ReceiveEffect<H>, ReceivePending<H>),
    Finished(Result<(), MigratableError<H::Error>>),
}

impl<H: Host> ReceivePending<H> {
    /// Whether an outcome is one that the awaited effect can have.
    pub open spec fn accepts(self, outcome: ReceiveOutcome<H>) -> bool {
        outcome is Failed || match self {
            ReceivePending::Request(_) => outcome is Request,
            ReceivePending::MemoryFd => outcome is Descriptor,
            ReceivePending::ConfigParse => outcome is Config,
            ReceivePending::ConfigConsole => outcome is Console,
            ReceivePending::ConfigMemory => outcome is Memory,
            ReceivePending::ConfigConnections => outcome is Memory,
            ReceivePending::MemoryTable => outcome is Memory,
            ReceivePending::MemoryFill => outcome is Memory,
            ReceivePending::StateParse(_) => outcome is Snapshot,
            ReceivePending::StateCreate => outcome is Vm,
            ReceivePending::StateRestore => outcome is Vm,
            _ => outcome is Done,
        }
    }

    /// Whether an outcome is one that the awaited effect can have.
    pub fn is_acceptable(&self, outcome: &ReceiveOutcome<H>) -> (r: bool)
        ensures
            r == self.accepts(*outcome),
    {
        match outcome {
            ReceiveOutcome::Failed(_) => true,
            ReceiveOutcome::Request(_, _) => match self {
                ReceivePending::Request(_) => true,
                _ => false,
            },
            ReceiveOutcome::Descriptor(_, _) => match self {
                ReceivePending::MemoryFd => true,
                _ => false,
            },
            ReceiveOutcome::Config(_) => match self {
                ReceivePending::ConfigParse => true,
                _ => false,
            },
            ReceiveOutcome::Console(_) => match self {
                ReceivePending::ConfigConsole => true,
                _ => false,
            },
            ReceiveOutcome::Memory(_) => match self {
                ReceivePending::ConfigMemory => true,
                ReceivePending::ConfigConnections => true,
                ReceivePending::MemoryTable => true,
                ReceivePending::MemoryFill => true,
                _ => false,
            },
            ReceiveOutcome::Snapshot(_) => match self {
                ReceivePending::StateParse(_) => true,
                _ => false,
            },
            ReceiveOutcome::Vm(_) => match self {
                ReceivePending::StateCreate => true,
                ReceivePending::StateRestore => true,
                _ => false,
            },
            ReceiveOutcome::Done => match self {
                ReceivePending::Request(_) => false,
                ReceivePending::MemoryFd => false,
                ReceivePending::ConfigParse => false,
                ReceivePending::ConfigConsole => false,
                ReceivePending::ConfigMemory => false,
                ReceivePending::ConfigConnections => false,
                ReceivePending::MemoryTable => false,
                ReceivePending::MemoryFill => false,
                ReceivePending::StateParse(_) => false,
                ReceivePending::StateCreate => false,
                ReceivePending::StateRestore => false,
                _ => true,
            },
        }
    }

    /// The configuration that is pending until it was checked.
    pub fn config(&self) -> (r: Option<&VmConfig<H::Device>>)
        ensures
            match *self {
                ReceivePending::ConfigCpuid(config) => r is Some && *r->Some_0 == config,
                _ => r is None,
            },
    {
        match self {
            ReceivePending::ConfigCpuid(config) => Some(config),
            _ => None,
        }
    }
}

/// A command that was handled: the sender is told so.
pub open spec fn handled<H: Host>(state: ReceiveMigrationState<H>) -> ReceiveStep<H> {
    ReceiveStep::Do(ReceiveEffect::Respond(true), ReceivePending::Respond(state))
}

/// A command that could not be handled: the sender is told so.
pub open spec fn refused<H: Host>(e: MigratableError<H::Error>) -> ReceiveStep<H> {
    ReceiveStep::Do(ReceiveEffect::Respond(false), ReceivePending::RespondError(e))
}

/// A failure here.
pub open spec fn receive_reason<E>(reason: Reason) -> MigratableError<E> {
    MigratableError::MigrateReceive(Failure::Reason(reason))
}

/// A failure outside.
pub open spec fn receive_failure<E>(e: E) -> MigratableError<E> {
    MigratableError::MigrateReceive(Failure::Outside(e))
}

/// The reason for a refused move of memory zones.
pub open spec fn zone_reason(e: ZoneError) -> Reason {
    match e {
        ZoneError::SizeChanged => Reason::ZoneSizeChanged,
        ZoneError::UnknownZone => Reason::UnknownZone,
        ZoneError::NoZones => Reason::NoZones,
    }
}

/// A configuration adapted to this host, up to a zone that cannot be moved.
pub open spec fn adapt<D>(config: ConfigModel<D>, data: VmReceiveMigrationData) -> (
    ConfigModel<D>,
    Result<(), ZoneError>,
) {
    let with_serial = match data.tcp_serial_url {
        Some(url) => ConfigModel { serial_url: Some(url@), ..config },
        None => config,
    };
    if data.zones@.len() == 0 {
        (with_serial, Ok(()))
    } else {
        match with_serial.zones {
            None => (with_serial, Err(ZoneError::NoZones)),
            Some(zones) => {
                let (moved, r) = config::adopt(zones, config::zone_models(data.zones@));
                (ConfigModel { zones: Some(moved), ..with_serial }, r)
            },
        }
    }
}

impl<H: Host> VmmModel<H> {
    /// The monitor without a VM and a configuration, after a migration that
    /// was not received.
    pub open spec fn forget(self) -> VmmModel<H> {
        VmmModel { vm: MaybeVmOwnership::Absent, vm_config: None, ..self }
    }

    /// The start of a migration to receive.
    pub open spec fn receive_start(self, s: SessionModel<H>) -> (VmmModel<H>, ReceiveStep<H>) {
        let m = VmmModel { received_postponed_lifecycle_event: None, ..self };
        if endpoint::stripped(s.data.receiver_url@, "tcp:"@) is None && endpoint::stripped(
            s.data.receiver_url@,
            "unix:"@,
        ) is None {
            (
                m,
                ReceiveStep::Finished(
                    Err(MigratableError::MigrateSend(Failure::Reason(Reason::InvalidSource))),
                ),
            )
        } else {
            let tls = endpoint::stripped(s.data.receiver_url@, "tcp:"@) is Some && s.data.tls;
            (m, ReceiveStep::Do(ReceiveEffect::Listen, ReceivePending::Listen(tls)))
        }
    }

    /// What a command leads to. Only commands that may come in this state do.
    pub open spec fn receive_command(
        self,
        s: SessionModel<H>,
        state: ReceiveMigrationState<H>,
        command: Command,
        length: u64,
    ) -> (SessionModel<H>, ReceiveStep<H>) {
        let fresh = if state is Started {
            SessionModel { files: Seq::empty(), ..s }
        } else {
            s
        };
        if command == Command::Abandon {
            (s, handled(ReceiveMigrationState::Aborted))
        } else if state.stage().after(command) is None {
            (s, refused(receive_reason(Reason::UnexpectedCommand)))
        } else {
            match command {
                Command::Start => (s, handled(ReceiveMigrationState::Started)),
                Command::MemoryFd => if s.unix {
                    (
                        fresh,
                        ReceiveStep::Do(ReceiveEffect::ReadMemoryFd, ReceivePending::MemoryFd),
                    )
                } else {
                    (s, refused(receive_reason(Reason::UnsupportedSocket)))
                },
                Command::Config => (
                    fresh,
                    ReceiveStep::Do(
                        ReceiveEffect::ReadPayload(length),
                        ReceivePending::ConfigPayload,
                    ),
                ),
                Command::Memory => (
                    s,
                    ReceiveStep::Do(
                        ReceiveEffect::ReadTable(length, state->Configured_0),
                        ReceivePending::MemoryTable,
                    ),
                ),
                Command::State => (
                    s,
                    ReceiveStep::Do(
                        ReceiveEffect::ReadPayload(length),
                        ReceivePending::StatePayload(state->Configured_0),
                    ),
                ),
                _ => (
                    s,
                    ReceiveStep::Do(ReceiveEffect::AnnounceVm, ReceivePending::Announce),
                ),
            }
        }
    }

    /// A failed effect.
    pub open spec fn receive_failed(self, pending: ReceivePending<H>, e: H::Error) -> ReceiveStep<
        H,
    > {
        match pending {
            ReceivePending::Listen(_) => ReceiveStep::Finished(Err(receive_failure(e))),
            ReceivePending::LoadTls => ReceiveStep::Finished(Err(MigratableError::Outside(e))),
            ReceivePending::Accept => ReceiveStep::Finished(Err(receive_failure(e))),
            ReceivePending::Request(_) => ReceiveStep::Finished(Err(MigratableError::Outside(e))),
            ReceivePending::Respond(_) => ReceiveStep::Finished(Err(MigratableError::Outside(e))),
            ReceivePending::RespondError(_) => ReceiveStep::Finished(
                Err(MigratableError::Outside(e)),
            ),
            ReceivePending::ConfigPayload => refused(MigratableError::MigrateSocket(e)),
            ReceivePending::StatePayload(_) => refused(MigratableError::MigrateSocket(e)),
            ReceivePending::MemoryTable => refused(MigratableError::Outside(e)),
            ReceivePending::Complete => if self.received_postponed_lifecycle_event is None {
                refused(MigratableError::Outside(e))
            } else {
                refused(receive_failure(e))
            },
            _ => refused(receive_failure(e)),
        }
    }

    /// A configuration that suits this host becomes the present one.
    pub open spec fn receive_config(self, s: SessionModel<H>, config: ConfigModel<H::Device>) -> (
        VmmModel<H>,
        ReceiveStep<H>,
    ) {
        let (adapted, r) = adapt(config, s.data);
        (
            VmmModel { vm_config: Some(adapted), ..self },
            match r {
                Ok(_) => ReceiveStep::Do(
                    ReceiveEffect::CreateConsole,
                    ReceivePending::ConfigConsole,
                ),
                Err(e) => refused(receive_reason(zone_reason(e))),
            },
        )
    }

    /// The end of a command that was answered.
    pub open spec fn receive_responded(self, state: ReceiveMigrationState<H>) -> (
        VmmModel<H>,
        ReceiveStep<H>,
    ) {
        match state {
            ReceiveMigrationState::Completed => (self, ReceiveStep::Finished(Ok(()))),
            ReceiveMigrationState::Aborted => (
                self.forget(),
                ReceiveStep::Finished(Err(MigratableError::CompleteMigration(None))),
            ),
            _ => (
                self,
                ReceiveStep::Do(ReceiveEffect::ReadRequest, ReceivePending::Request(state)),
            ),
        }
    }

    /// An effect that was done.
    pub open spec fn receive_done(self, pending: ReceivePending<H>) -> (
        VmmModel<H>,
        ReceiveStep<H>,
    ) {
        match pending {
            ReceivePending::Listen(true) => (
                self,
                ReceiveStep::Do(ReceiveEffect::LoadTls, ReceivePending::LoadTls),
            ),
            ReceivePending::Listen(false) => (
                self,
                ReceiveStep::Do(ReceiveEffect::Accept, ReceivePending::Accept),
            ),
            ReceivePending::LoadTls => (
                self,
                ReceiveStep::Do(ReceiveEffect::Accept, ReceivePending::Accept),
            ),
            ReceivePending::Accept => (
                self,
                ReceiveStep::Do(
                    ReceiveEffect::ReadRequest,
                    ReceivePending::Request(ReceiveMigrationState::Established),
                ),
            ),
            ReceivePending::ConfigPayload => (
                self,
                ReceiveStep::Do(ReceiveEffect::ParseConfig, ReceivePending::ConfigParse),
            ),
            ReceivePending::ConfigLandlock => (
                self,
                ReceiveStep::Do(ReceiveEffect::CreateMemory, ReceivePending::ConfigMemory),
            ),
            ReceivePending::StatePayload(memory) => (
                self,
                ReceiveStep::Do(
                    ReceiveEffect::ParseSnapshot,
                    ReceivePending::StateParse(memory),
                ),
            ),
            ReceivePending::StateEvents(memory) => (
                self,
                ReceiveStep::Do(ReceiveEffect::CreateVm(memory), ReceivePending::StateCreate),
            ),
            ReceivePending::Announce => (
                self,
                ReceiveStep::Do(
                    match self.received_postponed_lifecycle_event {
                        None => ReceiveEffect::ResumeVm,
                        Some(PostMigrationLifecycleEvent::VmReboot) =>
                            ReceiveEffect::WriteResetEvent,
                        Some(PostMigrationLifecycleEvent::VmShutdown) =>
                            ReceiveEffect::WriteGuestExitEvent,
                    },
                    ReceivePending::Complete,
                ),
            ),
            ReceivePending::Complete => (
                VmmModel { received_postponed_lifecycle_event: None, ..self },
                handled(ReceiveMigrationState::Completed),
            ),
            ReceivePending::Respond(state) => self.receive_responded(state),
            ReceivePending::RespondError(e) => (
                self.forget(),
                ReceiveStep::Finished(
                    Err(MigratableError::CompleteMigration(Some(Box::new(e)))),
                ),
            ),
            _ => (self, ReceiveStep::Finished(Ok(()))),
        }
    }

    /// Memory that has come back from outside.
    pub open spec fn receive_memory(
        self,
        s: SessionModel<H>,
        pending: ReceivePending<H>,
        memory: H::ReceivedMemory,
    ) -> (VmmModel<H>, ReceiveStep<H>) {
        match pending {
            ReceivePending::ConfigMemory => (
                VmmModel {
                    vm_config: match self.vm_config {
                        Some(config) => Some(
                            config.with_net_fds(config::restored_models(s.data.net_fds@)),
                        ),
                        None => None,
                    },
                    ..self
                },
                ReceiveStep::Do(
                    ReceiveEffect::OpenConnections(memory),
                    ReceivePending::ConfigConnections,
                ),
            ),
            ReceivePending::MemoryTable => (
                self,
                ReceiveStep::Do(ReceiveEffect::FillMemory(memory), ReceivePending::MemoryFill),
            ),
            _ => (self, handled(ReceiveMigrationState::Configured(memory))),
        }
    }

    /// How the receiver goes on.
    pub open spec fn receive(
        self,
        s: SessionModel<H>,
        pending: ReceivePending<H>,
        outcome: ReceiveOutcome<H>,
    ) -> (VmmModel<H>, SessionModel<H>, ReceiveStep<H>) {
        match outcome {
            ReceiveOutcome::Failed(e) => (self, s, self.receive_failed(pending, e)),
            ReceiveOutcome::Done => {
                let (m, step) = match pending {
                    ReceivePending::ConfigCpuid(config) => self.receive_config(s, config@),
                    _ => self.receive_done(pending),
                };
                (m, s, step)
            },
            ReceiveOutcome::Request(command, length) => {
                let (s2, step) = self.receive_command(s, pending->Request_0, command, length);
                (self, s2, step)
            },
            ReceiveOutcome::Descriptor(slot, file) => match file {
                Some(file) => (
                    self,
                    SessionModel {
                        files: s.files.push((bytes::le_value(slot@) as u32, file)),
                        ..s
                    },
                    handled(ReceiveMigrationState::MemoryFdsReceived),
                ),
                None => (self, s, refused(receive_reason(Reason::NoDescriptor))),
            },
            ReceiveOutcome::Config(config) => if self.features.checks_cpuid() {
                if self.features.tdx && config@.tdx {
                    (self, s, refused(receive_reason(Reason::TdxEnabled)))
                } else {
                    (
                        self,
                        s,
                        ReceiveStep::Do(
                            ReceiveEffect::CheckCpuid(config@.cpus.amx),
                            ReceivePending::ConfigCpuid(config),
                        ),
                    )
                }
            } else {
                let (m, step) = self.receive_config(s, config@);
                (m, s, step)
            },
            ReceiveOutcome::Console(console) => {
                let m = VmmModel { console_info: Some(console), ..self };
                (
                    m,
                    s,
                    if m.landlock_enable() {
                        ReceiveStep::Do(
                            ReceiveEffect::ApplyLandlock,
                            ReceivePending::ConfigLandlock,
                        )
                    } else {
                        ReceiveStep::Do(
                            ReceiveEffect::CreateMemory,
                            ReceivePending::ConfigMemory,
                        )
                    },
                )
            },
            ReceiveOutcome::Memory(memory) => {
                let (m, step) = self.receive_memory(s, pending, memory);
                (m, s, step)
            },
            ReceiveOutcome::Snapshot(event) => (
                VmmModel { received_postponed_lifecycle_event: event, ..self },
                s,
                ReceiveStep::Do(
                    ReceiveEffect::CloneEventFds,
                    ReceivePending::StateEvents(pending->StateParse_0),
                ),
            ),
            ReceiveOutcome::Vm(vm) => if pending is StateCreate {
                (
                    self,
                    s,
                    ReceiveStep::Do(ReceiveEffect::RestoreVm(vm), ReceivePending::StateRestore),
                )
            } else {
                (
                    VmmModel { vm: MaybeVmOwnership::Vmm(vm), ..self },
                    s,
                    handled(ReceiveMigrationState::StateReceived),
                )
            },
        }
    }
}

fn respond_ok<H: Host>(state: ReceiveMigrationState<H>) -> (r: ReceiveStep<H>)
    ensures
        r == handled(state),
{
    ReceiveStep::Do(ReceiveEffect::Respond(true), ReceivePending::Respond(state))
}

fn refuse<H: Host>(e: MigratableError<H::Error>) -> (r: ReceiveStep<H>)
    ensures
        r == refused::<H>(e),
{
    ReceiveStep::Do(ReceiveEffect::Respond(false), ReceivePending::RespondError(e))
}

fn refuse_for<H: Host>(reason: Reason) -> (r: ReceiveStep<H>)
    ensures
        r == refused::<H>(receive_reason(reason)),
{
    refuse(MigratableError::MigrateReceive(Failure::Reason(reason)))
}

fn refuse_after<H: Host>(e: H::Error) -> (r: ReceiveStep<H>)
    ensures
        r == refused::<H>(receive_failure(e)),
{
    refuse(MigratableError::MigrateReceive(Failure::Outside(e)))
}

impl<H: Host> Vmm<H> {
    /// Begins to receive a migration.
    pub fn vm_receive_migration(&mut self, session: &ReceiveSession<H>) -> (r: ReceiveStep<H>)
        ensures
            (final(self)@, r) == old(self)@.receive_start(session@),
    {
        // Prevent stale lifecycle intent from a previous failed receive attempt.
        self.received_postponed_lifecycle_event = None;
        match endpoint::source(session.data.receiver_url.as_str(), session.data.tls) {
            Err(reason) => ReceiveStep::Finished(
                Err(MigratableError::MigrateSend(Failure::Reason(reason))),
            ),
            Ok(listener) => {
                let tls: bool = match listener {
                    Listener::Tls(_) => true,
                    _ => false,
                };
                ReceiveStep::Do(ReceiveEffect::Listen, ReceivePending::Listen(tls))
            },
        }
    }

    /// Handles a migration command.
    pub fn vm_receive_migration_step(
        &self,
        session: &mut ReceiveSession<H>,
        state: ReceiveMigrationState<H>,
        command: Command,
        length: u64,
    ) -> (r: ReceiveStep<H>)
        requires
            !state.stage().is_finished(),
            state is StateReceived ==> self@.vm is Vmm,
        ensures
            (final(session)@, r) == self@.receive_command(
                old(session)@,
                state,
                command,
                length,
            ),
    {
        if command == Command::Abandon {
            return respond_ok(ReceiveMigrationState::Aborted);
        }
        match state {
            ReceiveMigrationState::Established => {
                if command == Command::Start {
                    respond_ok(ReceiveMigrationState::Started)
                } else {
                    refuse_for(Reason::UnexpectedCommand)
                }
            },
            ReceiveMigrationState::Started => {
                if command == Command::MemoryFd {
                    if session.unix {
                        session.files = Vec::new();
                        assert(session@.files =~= Seq::empty());
                        ReceiveStep::Do(ReceiveEffect::ReadMemoryFd, ReceivePending::MemoryFd)
                    } else {
                        refuse_for(Reason::UnsupportedSocket)
                    }
                } else if command == Command::Config {
                    session.files = Vec::new();
                    assert(session@.files =~= Seq::empty());
                    ReceiveStep::Do(
                        ReceiveEffect::ReadPayload(length),
                        ReceivePending::ConfigPayload,
                    )
                } else {
                    refuse_for(Reason::UnexpectedCommand)
                }
            },
            ReceiveMigrationState::MemoryFdsReceived => {
                if command == Command::MemoryFd {
                    if session.unix {
                        ReceiveStep::Do(ReceiveEffect::ReadMemoryFd, ReceivePending::MemoryFd)
                    } else {
                        refuse_for(Reason::UnsupportedSocket)
                    }
                } else if command == Command::Config {
                    ReceiveStep::Do(
                        ReceiveEffect::ReadPayload(length),
                        ReceivePending::ConfigPayload,
                    )
                } else {
                    refuse_for(Reason::UnexpectedCommand)
                }
            },
            ReceiveMigrationState::Configured(memory) => {
                if command == Command::Memory {
                    ReceiveStep::Do(
                        ReceiveEffect::ReadTable(length, memory),
                        ReceivePending::MemoryTable,
                    )
                } else if command == Command::State {
                    ReceiveStep::Do(
                        ReceiveEffect::ReadPayload(length),
                        ReceivePending::StatePayload(memory),
                    )
                } else {
                    refuse_for(Reason::UnexpectedCommand)
                }
            },
            _ => {
                if command == Command::Complete {
                    ReceiveStep::Do(ReceiveEffect::AnnounceVm, ReceivePending::Announce)
                } else {
                    refuse_for(Reason::UnexpectedCommand)
                }
            },
        }
    }

    fn receive_failed(&self, pending: ReceivePending<H>, e: H::Error) -> (r: ReceiveStep<H>)
        ensures
            r == self@.receive_failed(pending, e),
    {
        match pending {
            ReceivePending::Listen(_) => ReceiveStep::Finished(
                Err(MigratableError::MigrateReceive(Failure::Outside(e))),
            ),
            ReceivePending::LoadTls => ReceiveStep::Finished(Err(MigratableError::Outside(e))),
            ReceivePending::Accept => ReceiveStep::Finished(
                Err(MigratableError::MigrateReceive(Failure::Outside(e))),
            ),
            ReceivePending::Request(_) => ReceiveStep::Finished(Err(MigratableError::Outside(e))),
            ReceivePending::Respond(_) => ReceiveStep::Finished(Err(MigratableError::Outside(e))),
            ReceivePending::RespondError(_) => ReceiveStep::Finished(
                Err(MigratableError::Outside(e)),
            ),
            ReceivePending::ConfigPayload => refuse(MigratableError::MigrateSocket(e)),
            ReceivePending::StatePayload(_) => refuse(MigratableError::MigrateSocket(e)),
            ReceivePending::MemoryTable => refuse(MigratableError::Outside(e)),
            ReceivePending::Complete => {
                if self.received_postponed_lifecycle_event.is_none() {
                    refuse(MigratableError::Outside(e))
                } else {
                    refuse_after(e)
                }
            },
            _ => refuse_after(e),
        }
    }

    /// Adapts a configuration to this host and makes it the present one.
    fn receive_config(&mut self, session: &ReceiveSession<H>, config: VmConfig<H::Device>) -> (r:
        ReceiveStep<H>)
        ensures
            (final(self)@, r) == old(self)@.receive_config(session@, config@),
    {
        let mut adapted: VmConfig<H::Device> = config;
        if let Some(url) = &session.data.tcp_serial_url {
            adapted.serial_url = Some(url.clone());
        }
        let moved = adapted.move_zones(session.data.zones.as_slice());
        self.vm_config = Some(adapted);
        assert(self@ =~= old(self)@.receive_config(session@, config@).0);
        match moved {
            Ok(_) => ReceiveStep::Do(ReceiveEffect::CreateConsole, ReceivePending::ConfigConsole),
            Err(ZoneError::SizeChanged) => refuse_for(Reason::ZoneSizeChanged),
            Err(ZoneError::UnknownZone) => refuse_for(Reason::UnknownZone),
            Err(ZoneError::NoZones) => refuse_for(Reason::NoZones),
        }
    }

    fn receive_done(&mut self, pending: ReceivePending<H>) -> (r: ReceiveStep<H>)
        ensures
            (final(self)@, r) == old(self)@.receive_done(pending),
    {
        match pending {
            ReceivePending::Listen(true) => ReceiveStep::Do(
                ReceiveEffect::LoadTls,
                ReceivePending::LoadTls,
            ),
            ReceivePending::Listen(false) => ReceiveStep::Do(
                ReceiveEffect::Accept,
                ReceivePending::Accept,
            ),
            ReceivePending::LoadTls => ReceiveStep::Do(
                ReceiveEffect::Accept,
                ReceivePending::Accept,
            ),
            ReceivePending::Accept => ReceiveStep::Do(
                ReceiveEffect::ReadRequest,
                ReceivePending::Request(ReceiveMigrationState::Established),
            ),
            ReceivePending::ConfigPayload => ReceiveStep::Do(
                ReceiveEffect::ParseConfig,
                ReceivePending::ConfigParse,
            ),
            ReceivePending::ConfigLandlock => ReceiveStep::Do(
                ReceiveEffect::CreateMemory,
                ReceivePending::ConfigMemory,
            ),
            ReceivePending::StatePayload(memory) => ReceiveStep::Do(
                ReceiveEffect::ParseSnapshot,
                ReceivePending::StateParse(memory),
            ),
            ReceivePending::StateEvents(memory) => ReceiveStep::Do(
                ReceiveEffect::CreateVm(memory),
                ReceivePending::StateCreate,
            ),
            ReceivePending::Announce => ReceiveStep::Do(
                match self.received_postponed_lifecycle_event {
                    None => ReceiveEffect::ResumeVm,
                    Some(PostMigrationLifecycleEvent::VmReboot) => ReceiveEffect::WriteResetEvent,
                    Some(PostMigrationLifecycleEvent::VmShutdown) =>
                        ReceiveEffect::WriteGuestExitEvent,
                },
                ReceivePending::Complete,
            ),
            ReceivePending::Complete => {
                self.received_postponed_lifecycle_event = None;
                respond_ok(ReceiveMigrationState::Completed)
            },
            ReceivePending::Respond(state) => match state {
                ReceiveMigrationState::Completed => ReceiveStep::Finished(Ok(())),
                ReceiveMigrationState::Aborted => {
                    self.vm = MaybeVmOwnership::Absent;
                    self.vm_config = None;
                    ReceiveStep::Finished(Err(MigratableError::CompleteMigration(None)))
                },
                _ => ReceiveStep::Do(ReceiveEffect::ReadRequest, ReceivePending::Request(state)),
            },
            ReceivePending::RespondError(e) => {
                self.vm = MaybeVmOwnership::Absent;
                self.vm_config = None;
                ReceiveStep::Finished(Err(MigratableError::CompleteMigration(Some(Box::new(e)))))
            },
            _ => ReceiveStep::Finished(Ok(())),
        }
    }

    fn receive_memory(
        &mut self,
        session: &ReceiveSession<H>,
        pending: ReceivePending<H>,
        memory: H::ReceivedMemory,
    ) -> (r: ReceiveStep<H>)
        ensures
            (final(self)@, r) == old(self)@.receive_memory(session@, pending, memory),
    {
        match pending {
            ReceivePending::ConfigMemory => {
                if let Some(config) = &mut self.vm_config {
                    config.restore_net_fds(session.data.net_fds.as_slice());
                }
                ReceiveStep::Do(
                    ReceiveEffect::OpenConnections(memory),
                    ReceivePending::ConfigConnections,
                )
            },
            ReceivePending::MemoryTable => ReceiveStep::Do(
                ReceiveEffect::FillMemory(memory),
                ReceivePending::MemoryFill,
            ),
            _ => respond_ok(ReceiveMigrationState::Configured(memory)),
        }
    }

    /// Goes on with receiving a migration.
    pub fn receive(
        &mut self,
        session: &mut ReceiveSession<H>,
        pending: ReceivePending<H>,
        outcome: ReceiveOutcome<H>,
    ) -> (r: ReceiveStep<H>)
        requires
            pending.accepts(outcome),
            pending matches ReceivePending::Request(state) ==> !state.stage().is_finished()
                && (state is StateReceived ==> old(self)@.vm is Vmm),
        ensures
            (final(self)@, final(session)@, r) == old(self)@.receive(
                old(session)@,
                pending,
                outcome,
            ),
    {
        match outcome {
            ReceiveOutcome::Failed(e) => self.receive_failed(pending, e),
            ReceiveOutcome::Done => match pending {
                ReceivePending::ConfigCpuid(config) => self.receive_config(session, config),
                pending => self.receive_done(pending),
            },
            ReceiveOutcome::Request(command, length) => match pending {
                ReceivePending::Request(state) => self.vm_receive_migration_step(
                    session,
                    state,
                    command,
                    length,
                ),
                _ => vstd::pervasive::unreached(),
            },
            ReceiveOutcome::Descriptor(slot, file) => match file {
                Some(file) => {
                    let slot: u32 = bytes::read_le32(slot.as_slice());
                    session.files.push((slot, file));
                    respond_ok(ReceiveMigrationState::MemoryFdsReceived)
                },
                None => refuse_for(Reason::NoDescriptor),
            },
            ReceiveOutcome::Config(config) => {
                if self.features.compares_cpuid() {
                    if self.features.tdx && config.tdx {
                        return refuse_for(Reason::TdxEnabled);
                    }
                    return ReceiveStep::Do(
                        ReceiveEffect::CheckCpuid(config.cpus.amx),
                        ReceivePending::ConfigCpuid(config),
                    );
                }
                self.receive_config(session, config)
            },
            ReceiveOutcome::Console(console) => {
                self.console_info = Some(console);
                if self.wants_landlock() {
                    ReceiveStep::Do(ReceiveEffect::ApplyLandlock, ReceivePending::ConfigLandlock)
                } else {
                    ReceiveStep::Do(ReceiveEffect::CreateMemory, ReceivePending::ConfigMemory)
                }
            },
            ReceiveOutcome::Memory(memory) => self.receive_memory(session, pending, memory),
            ReceiveOutcome::Snapshot(event) => {
                self.received_postponed_lifecycle_event = event;
                match pending {
                    ReceivePending::StateParse(memory) => ReceiveStep::Do(
                        ReceiveEffect::CloneEventFds,
                        ReceivePending::StateEvents(memory),
                    ),
                    _ => vstd::pervasive::unreached(),
                }
            },
            ReceiveOutcome::Vm(vm) => {
                if let ReceivePending::StateCreate = pending {
                    ReceiveStep::Do(ReceiveEffect::RestoreVm(vm), ReceivePending::StateRestore)
                } else {
                    self.vm = MaybeVmOwnership::Vmm(vm);
                    respond_ok(ReceiveMigrationState::StateReceived)
                }
            },
        }
    }
}

} // verus!
