//! Which commands make a migration, and what the receiver does for each.
use crate::bytes;
use crate::migration::error::Failure;
use crate::migration::error::MigratableError;
use crate::migration::error::Reason;
use crate::migration::laws;
use crate::migration::protocol::Command;
use crate::migration::protocol::Stage;
use crate::migration::receive;
use crate::migration::receive::ReceiveEffect;
use crate::migration::receive::ReceiveMigrationState;
use crate::migration::receive::ReceiveOutcome;
use crate::migration::receive::ReceivePending;
use crate::migration::receive::ReceiveStep;
use crate::migration::receive::SessionModel;
use crate::migration::receive::VmReceiveMigrationData;
use crate::vmm::config;
use crate::vmm::config::ConfigModel;
use crate::vmm::config::VmConfig;
use crate::vmm::host::Host;
use crate::vmm::ownership::MaybeVmOwnership;
use crate::vmm::state::PostMigrationLifecycleEvent;
use crate::vmm::state::VmmModel;
use vstd::prelude::*;

verus! {

/// The start, some descriptors of memory, the configuration, and some memory.
pub open spec fn with_memory(descriptors: nat, tables: nat) -> Seq<Command> {
    seq![Command::Start] + laws::repeated(Command::MemoryFd, descriptors) + seq![Command::Config]
        + laws::repeated(Command::Memory, tables)
}

/// The commands that lead to a stage, if none of them gives up.
pub open spec fn leads_to(commands: Seq<Command>, stage: Stage) -> bool {
    match stage {
        Stage::Established => commands.len() == 0,
        Stage::Started => commands == seq![Command::Start],
        Stage::MemoryFdsReceived => exists|n: nat|
            n > 0 && commands == seq![Command::Start] + #[trigger] laws::repeated(
                Command::MemoryFd,
                n,
            ),
        Stage::Configured => exists|f: nat, n: nat| commands == #[trigger] with_memory(f, n),
        Stage::StateReceived => exists|f: nat, n: nat|
            commands == #[trigger] with_memory(f, n) + seq![Command::State],
        Stage::Completed => exists|f: nat, n: nat|
            commands == #[trigger] with_memory(f, n) + seq![Command::State, Command::Complete],
        Stage::Aborted => commands.len() > 0 && commands.last() == Command::Abandon,
    }
}

proof fn lemma_one_more(command: Command, n: nat)
    ensures
        laws::repeated(command, n).push(command) == laws::repeated(command, n + 1),
{
    assert(laws::repeated(command, n).push(command) =~= laws::repeated(command, n + 1));
}

proof fn lemma_leads_to_next(commands: Seq<Command>, stage: Stage, last: Command)
    requires
        leads_to(commands, stage),
        stage.after(last) is Some,
    ensures
        leads_to(commands.push(last), stage.after(last)->Some_0),
{
    let all = commands.push(last);
    let next = stage.after(last)->Some_0;
    if last == Command::Abandon {
        assert(all.last() == Command::Abandon);
    } else if stage == Stage::Established {
        assert(all =~= seq![Command::Start]);
    } else if stage == Stage::Started && last == Command::MemoryFd {
        assert(all =~= seq![Command::Start] + laws::repeated(Command::MemoryFd, 1));
    } else if stage == Stage::Started {
        assert(all =~= with_memory(0, 0));
    } else if stage == Stage::MemoryFdsReceived {
        let n = choose|n: nat|
            n > 0 && commands == seq![Command::Start] + #[trigger] laws::repeated(
                Command::MemoryFd,
                n,
            );
        if last == Command::MemoryFd {
            lemma_one_more(Command::MemoryFd, n);
            assert(all =~= seq![Command::Start] + laws::repeated(Command::MemoryFd, n + 1));
        } else {
            assert(all =~= with_memory(n, 0));
        }
    } else if stage == Stage::Configured {
        let (f, n) = choose|f: nat, n: nat| commands == #[trigger] with_memory(f, n);
        if last == Command::Memory {
            lemma_one_more(Command::Memory, n);
            assert(all =~= with_memory(f, n + 1));
        } else {
            assert(all =~= with_memory(f, n) + seq![Command::State]);
        }
    } else {
        let (f, n) = choose|f: nat, n: nat|
            commands == #[trigger] with_memory(f, n) + seq![Command::State];
        assert(all =~= with_memory(f, n) + seq![Command::State, Command::Complete]);
    }
}

/// A migration is complete only after these commands, in this order: the start,
/// descriptors of memory if there are any, the configuration, memory as often
/// as it is sent, the state of the VM, and the completion.
pub proof fn law_complete_migrations_have_all_parts(commands: Seq<Command>)
    ensures
        Stage::Established.after_all(commands) matches Some(stage) ==> leads_to(commands, stage),
    decreases commands.len(),
{
    if commands.len() > 0 {
        law_complete_migrations_have_all_parts(commands.drop_last());
        if let Some(stage) = Stage::Established.after_all(commands.drop_last()) {
            if stage.after(commands.last()) is Some {
                lemma_leads_to_next(commands.drop_last(), stage, commands.last());
                assert(commands.drop_last().push(commands.last()) =~= commands);
            }
        }
    }
}

proof fn lemma_after_push(stage: Stage, commands: Seq<Command>, last: Command)
    ensures
        stage.after_all(commands.push(last)) == match stage.after_all(commands) {
            Some(s) => s.after(last),
            None => None,
        },
{
    assert(commands.push(last).drop_last() =~= commands);
    assert(commands.push(last).last() == last);
}

proof fn lemma_descriptors(n: nat)
    ensures
        Stage::Established.after_all(
            seq![Command::Start] + laws::repeated(Command::MemoryFd, n),
        ) == Some(
            if n == 0 {
                Stage::Started
            } else {
                Stage::MemoryFdsReceived
            },
        ),
    decreases n,
{
    let all = seq![Command::Start] + laws::repeated(Command::MemoryFd, n);
    if n == 0 {
        assert(all =~= Seq::<Command>::empty().push(Command::Start));
        lemma_after_push(Stage::Established, Seq::empty(), Command::Start);
        assert(Stage::Established.after_all(Seq::empty()) == Some(Stage::Established));
    } else {
        let m = (n - 1) as nat;
        lemma_descriptors(m);
        lemma_one_more(Command::MemoryFd, m);
        let before = seq![Command::Start] + laws::repeated(Command::MemoryFd, m);
        lemma_after_push(Stage::Established, before, Command::MemoryFd);
        assert(all =~= before.push(Command::MemoryFd));
    }
}

proof fn lemma_tables(f: nat, n: nat)
    ensures
        Stage::Established.after_all(with_memory(f, n)) == Some(Stage::Configured),
    decreases n,
{
    if n == 0 {
        let before = seq![Command::Start] + laws::repeated(Command::MemoryFd, f);
        lemma_descriptors(f);
        lemma_after_push(Stage::Established, before, Command::Config);
        assert(with_memory(f, 0) =~= before.push(Command::Config));
    } else {
        let m = (n - 1) as nat;
        lemma_tables(f, m);
        lemma_one_more(Command::Memory, m);
        lemma_after_push(Stage::Established, with_memory(f, m), Command::Memory);
        assert(with_memory(f, n) =~= with_memory(f, m).push(Command::Memory));
    }
}

/// Every migration that is made of these parts is accepted, however many
/// descriptors and tables there are, and can be given up at any time.
pub proof fn law_whole_migrations_are_accepted(descriptors: nat, tables: nat)
    ensures
        ({
            let memory = with_memory(descriptors, tables);
            &&& Stage::Established.after_all(memory) == Some(Stage::Configured)
            &&& Stage::Established.after_all(memory + seq![Command::State]) == Some(
                Stage::StateReceived,
            )
            &&& Stage::Established.after_all(memory + seq![Command::State, Command::Complete])
                == Some(Stage::Completed)
            &&& Stage::Established.after_all(memory + seq![Command::Abandon]) == Some(
                Stage::Aborted,
            )
        }),
{
    let memory = with_memory(descriptors, tables);
    lemma_tables(descriptors, tables);
    lemma_after_push(Stage::Established, memory, Command::State);
    lemma_after_push(Stage::Established, memory, Command::Abandon);
    lemma_after_push(Stage::Established, memory.push(Command::State), Command::Complete);
    assert(memory + seq![Command::State] =~= memory.push(Command::State));
    assert(memory + seq![Command::Abandon] =~= memory.push(Command::Abandon));
    assert(memory + seq![Command::State, Command::Complete] =~= memory.push(Command::State).push(
        Command::Complete,
    ));
}

/// The receiver listens where it was told to, loads certificates if the network
/// is used and there are any, waits for the sender, and then for its first
/// command. A place that is neither on the network nor a path is refused.
pub proof fn law_receiver_waits_for_the_sender<H: Host>(m: VmmModel<H>, s: SessionModel<H>, tls: bool)
    ensures
        ({
            let tcp = exists|rest: Seq<char>| s.data.receiver_url@ == "tcp:"@ + rest;
            let unix = exists|rest: Seq<char>| s.data.receiver_url@ == "unix:"@ + rest;
            let (first, step) = m.receive_start(s);
            &&& first == (VmmModel { received_postponed_lifecycle_event: None, ..m })
            &&& if tcp || unix {
                step == ReceiveStep::<H>::Do(
                    ReceiveEffect::Listen,
                    ReceivePending::Listen(tcp && s.data.tls),
                )
            } else {
                step == ReceiveStep::<H>::Finished(
                    Err(MigratableError::MigrateSend(Failure::Reason(Reason::InvalidSource))),
                )
            }
        }),
        m.receive(s, ReceivePending::Listen(tls), ReceiveOutcome::Done) == (
            m,
            s,
            if tls {
                ReceiveStep::<H>::Do(ReceiveEffect::LoadTls, ReceivePending::LoadTls)
            } else {
                ReceiveStep::<H>::Do(ReceiveEffect::Accept, ReceivePending::Accept)
            },
        ),
        m.receive(s, ReceivePending::LoadTls, ReceiveOutcome::Done) == (
            m,
            s,
            ReceiveStep::<H>::Do(ReceiveEffect::Accept, ReceivePending::Accept),
        ),
        m.receive(s, ReceivePending::Accept, ReceiveOutcome::Done) == (
            m,
            s,
            ReceiveStep::<H>::Do(
                ReceiveEffect::ReadRequest,
                ReceivePending::Request(ReceiveMigrationState::Established),
            ),
        ),
{
    let url = s.data.receiver_url@;
    lemma_stripped(url, "tcp:"@);
    lemma_stripped(url, "unix:"@);
}

proof fn lemma_stripped(s: Seq<char>, prefix: Seq<char>)
    ensures
        crate::migration::endpoint::stripped(s, prefix) is Some <==> exists|rest: Seq<char>|
            s == prefix + rest,
{
    if prefix.is_prefix_of(s) {
        assert(s =~= prefix + s.skip(prefix.len() as int));
    }
    if exists|rest: Seq<char>| s == prefix + rest {
        let rest = choose|rest: Seq<char>| s == prefix + rest;
        assert(prefix =~= s.take(prefix.len() as int));
    }
}

/// A received configuration is read, compared with this host where processors
/// can be compared, adapted, and becomes the present one. Then there is a
/// console, the process is restricted if the configuration says so, memory is
/// created, network devices get their descriptors, additional connections are
/// accepted, and the sender is told that all went well.
pub proof fn law_received_configuration_is_adopted<H: Host>(
    m: VmmModel<H>,
    s: SessionModel<H>,
    length: u64,
    config: VmConfig<H::Device>,
    console: H::Console,
    created: H::ReceivedMemory,
    opened: H::ReceivedMemory,
)
    requires
        m.features.checks_cpuid() ==> !(m.features.tdx && config.tdx),
        receive::adapt(config@, s.data).1 is Ok,
    ensures
        ({
            let adapted = receive::adapt(config@, s.data).0;
            let (s0, t0) = m.receive_command(
                s,
                ReceiveMigrationState::Started,
                Command::Config,
                length,
            );
            let (m1, s1, t1) = m.receive(s0, ReceivePending::ConfigPayload, ReceiveOutcome::Done);
            let (m2, s2, t2) = m1.receive(
                s1,
                ReceivePending::ConfigParse,
                ReceiveOutcome::Config(config),
            );
            let (m3, s3, t3) = if m.features.kvm && m.features.x86_64 {
                m2.receive(s2, ReceivePending::ConfigCpuid(config), ReceiveOutcome::Done)
            } else {
                (m2, s2, t2)
            };
            let (m4, s4, t4) = m3.receive(
                s3,
                ReceivePending::ConfigConsole,
                ReceiveOutcome::Console(console),
            );
            let (m5, s5, t5) = if config.landlock_enable {
                m4.receive(s4, ReceivePending::ConfigLandlock, ReceiveOutcome::Done)
            } else {
                (m4, s4, t4)
            };
            let (m6, s6, t6) = m5.receive(
                s5,
                ReceivePending::ConfigMemory,
                ReceiveOutcome::Memory(created),
            );
            let (m7, s7, t7) = m6.receive(
                s6,
                ReceivePending::ConfigConnections,
                ReceiveOutcome::Memory(opened),
            );
            &&& t0 == ReceiveStep::<H>::Do(
                ReceiveEffect::ReadPayload(length),
                ReceivePending::ConfigPayload,
            )
            &&& t1 == ReceiveStep::<H>::Do(
                ReceiveEffect::ParseConfig,
                ReceivePending::ConfigParse,
            )
            &&& m.features.kvm && m.features.x86_64 ==> t2 == ReceiveStep::<H>::Do(
                ReceiveEffect::CheckCpuid(config.cpus.amx),
                ReceivePending::ConfigCpuid(config),
            )
            &&& t3 == ReceiveStep::<H>::Do(
                ReceiveEffect::CreateConsole,
                ReceivePending::ConfigConsole,
            )
            &&& m3.vm_config == Some(adapted)
            &&& config.landlock_enable ==> t4 == ReceiveStep::<H>::Do(
                ReceiveEffect::ApplyLandlock,
                ReceivePending::ConfigLandlock,
            )
            &&& t5 == ReceiveStep::<H>::Do(
                ReceiveEffect::CreateMemory,
                ReceivePending::ConfigMemory,
            )
            &&& t6 == ReceiveStep::<H>::Do(
                ReceiveEffect::OpenConnections(created),
                ReceivePending::ConfigConnections,
            )
            &&& t7 == ReceiveStep::<H>::Do(
                ReceiveEffect::Respond(true),
                ReceivePending::Respond(ReceiveMigrationState::Configured(opened)),
            )
            &&& m7 == (VmmModel {
                vm_config: Some(adapted.with_net_fds(config::restored_models(s.data.net_fds@))),
                console_info: Some(console),
                ..m
            })
        }),
{
    let adapted = receive::adapt(config@, s.data).0;
    assert(adapted.landlock_enable == config.landlock_enable);
}

/// A configuration is adapted to the host in two ways only: the serial console
/// is connected elsewhere if the user says so, and memory zones are moved if
/// the user says where to.
pub proof fn law_adapting_changes_console_and_zones<D>(
    before: ConfigModel<D>,
    data: VmReceiveMigrationData,
)
    ensures
        ({
            let (after, r) = receive::adapt(before, data);
            &&& after == (ConfigModel {
                serial_url: after.serial_url,
                zones: after.zones,
                ..before
            })
            &&& after.serial_url == match data.tcp_serial_url {
                Some(url) => Some(url@),
                None => before.serial_url,
            }
            &&& data.zones@.len() == 0 ==> r is Ok && after.zones == before.zones
            &&& data.zones@.len() > 0 && before.zones is None ==> r is Err && after.zones is None
            &&& data.zones@.len() > 0 && before.zones is Some ==> after.zones == Some(
                config::adopt(before.zones->Some_0, config::zone_models(data.zones@)).0,
            ) && r == config::adopt(before.zones->Some_0, config::zone_models(data.zones@)).1
        }),
{
}

/// Received memory is read as a table of the given length, and filled. The
/// state is read and brings what the guest has asked for; the VM is created
/// with the memory that was filled, restored, and owned by the monitor.
pub proof fn law_received_state_becomes_the_vm<H: Host>(
    m: VmmModel<H>,
    s: SessionModel<H>,
    length: u64,
    memory: H::ReceivedMemory,
    wish: Option<PostMigrationLifecycleEvent>,
    created: H::Vm,
    restored: H::Vm,
)
    ensures
        m.receive_command(
            s,
            ReceiveMigrationState::Configured(memory),
            Command::Memory,
            length,
        ) == (
            s,
            ReceiveStep::<H>::Do(
                ReceiveEffect::ReadTable(length, memory),
                ReceivePending::MemoryTable,
            ),
        ),
        m.receive(s, ReceivePending::MemoryTable, ReceiveOutcome::Memory(memory)) == (
            m,
            s,
            ReceiveStep::<H>::Do(ReceiveEffect::FillMemory(memory), ReceivePending::MemoryFill),
        ),
        m.receive_command(
            s,
            ReceiveMigrationState::Configured(memory),
            Command::State,
            length,
        ) == (
            s,
            ReceiveStep::<H>::Do(
                ReceiveEffect::ReadPayload(length),
                ReceivePending::StatePayload(memory),
            ),
        ),
        ({
            let (m1, s1, t1) = m.receive(
                s,
                ReceivePending::StatePayload(memory),
                ReceiveOutcome::Done,
            );
            let (m2, s2, t2) = m1.receive(
                s1,
                ReceivePending::StateParse(memory),
                ReceiveOutcome::Snapshot(wish),
            );
            let (m3, s3, t3) = m2.receive(
                s2,
                ReceivePending::StateEvents(memory),
                ReceiveOutcome::Done,
            );
            let (m4, s4, t4) = m3.receive(
                s3,
                ReceivePending::StateCreate,
                ReceiveOutcome::Vm(created),
            );
            let (m5, s5, t5) = m4.receive(
                s4,
                ReceivePending::StateRestore,
                ReceiveOutcome::Vm(restored),
            );
            &&& t1 == ReceiveStep::<H>::Do(
                ReceiveEffect::ParseSnapshot,
                ReceivePending::StateParse(memory),
            )
            &&& t2 == ReceiveStep::<H>::Do(
                ReceiveEffect::CloneEventFds,
                ReceivePending::StateEvents(memory),
            )
            &&& t3 == ReceiveStep::<H>::Do(
                ReceiveEffect::CreateVm(memory),
                ReceivePending::StateCreate,
            )
            &&& t4 == ReceiveStep::<H>::Do(
                ReceiveEffect::RestoreVm(created),
                ReceivePending::StateRestore,
            )
            &&& t5 == ReceiveStep::<H>::Do(
                ReceiveEffect::Respond(true),
                ReceivePending::Respond(ReceiveMigrationState::StateReceived),
            )
            &&& m5 == (VmmModel {
                vm: MaybeVmOwnership::Vmm(restored),
                received_postponed_lifecycle_event: wish,
                ..m
            })
        }),
{
}

/// A received VM advertises its new location, and then gets what it has asked
/// for: it is resumed if it has asked for nothing, and rebooted or shut down
/// otherwise. Its wish is fulfilled once.
pub proof fn law_received_vm_gets_its_wish<H: Host>(
    m: VmmModel<H>,
    s: SessionModel<H>,
    length: u64,
)
    ensures
        m.receive_command(s, ReceiveMigrationState::StateReceived, Command::Complete, length) == (
            s,
            ReceiveStep::<H>::Do(ReceiveEffect::AnnounceVm, ReceivePending::Announce),
        ),
        m.receive(s, ReceivePending::Announce, ReceiveOutcome::Done) == (
            m,
            s,
            ReceiveStep::<H>::Do(
                match m.received_postponed_lifecycle_event {
                    None => ReceiveEffect::ResumeVm,
                    Some(PostMigrationLifecycleEvent::VmReboot) => ReceiveEffect::WriteResetEvent,
                    Some(PostMigrationLifecycleEvent::VmShutdown) =>
                        ReceiveEffect::WriteGuestExitEvent,
                },
                ReceivePending::Complete,
            ),
        ),
        m.receive(s, ReceivePending::Complete, ReceiveOutcome::Done) == (
            VmmModel { received_postponed_lifecycle_event: None, ..m },
            s,
            ReceiveStep::<H>::Do(
                ReceiveEffect::Respond(true),
                ReceivePending::Respond(ReceiveMigrationState::Completed),
            ),
        ),
{
}

/// A descriptor of memory is kept for the slot whose number came with it, low
/// byte first. Descriptors come over UNIX domain sockets only, and each command
/// brings one.
pub proof fn law_descriptors_are_kept_by_slot<H: Host>(
    m: VmmModel<H>,
    s: SessionModel<H>,
    slot: [u8; 4],
    file: H::MemoryFile,
    length: u64,
)
    ensures
        m.receive(s, ReceivePending::MemoryFd, ReceiveOutcome::Descriptor(slot, Some(file))) == (
            m,
            SessionModel {
                files: s.files.push(
                    (
                        (slot@[0] + 256 * slot@[1] + 65536 * slot@[2] + 16777216
                            * slot@[3]) as u32,
                        file,
                    ),
                ),
                ..s
            },
            receive::handled::<H>(ReceiveMigrationState::MemoryFdsReceived),
        ),
        m.receive(s, ReceivePending::MemoryFd, ReceiveOutcome::Descriptor(slot, None)).2
            == ReceiveStep::<H>::Do(
            ReceiveEffect::Respond(false),
            ReceivePending::RespondError(
                MigratableError::MigrateReceive(Failure::Reason(Reason::NoDescriptor)),
            ),
        ),
        m.receive_command(
            s,
            ReceiveMigrationState::MemoryFdsReceived,
            Command::MemoryFd,
            length,
        ) == if s.unix {
            (s, ReceiveStep::<H>::Do(ReceiveEffect::ReadMemoryFd, ReceivePending::MemoryFd))
        } else {
            (
                s,
                ReceiveStep::<H>::Do(
                    ReceiveEffect::Respond(false),
                    ReceivePending::RespondError(
                        MigratableError::MigrateReceive(
                            Failure::Reason(Reason::UnsupportedSocket),
                        ),
                    ),
                ),
            )
        },
{
    bytes::lemma_le_value4(slot@);
}

/// The memory of a slot is the last file that came for it. A slot for which
/// none came has no file.
pub proof fn law_last_file_of_a_slot_counts<F>(files: Seq<(u32, F)>, slot: u32, i: int)
    ensures
        ({
            let by_slot = receive::files_by_slot(files);
            &&& 0 <= i < files.len() && files[i].0 == slot && (forall|k: int|
                i < k < files.len() ==> (#[trigger] files[k]).0 != slot)
                ==> by_slot.contains_key(slot) && by_slot[slot] == files[i].1
            &&& (forall|k: int| 0 <= k < files.len() ==> (#[trigger] files[k]).0 != slot)
                ==> !by_slot.contains_key(slot)
        }),
    decreases files.len(),
{
    if files.len() > 0 {
        let before = files.drop_last();
        law_last_file_of_a_slot_counts(before, slot, i);
        assert(files[files.len() - 1] == files.last());
        assert forall|k: int| 0 <= k < before.len() implies (#[trigger] before[k]) == files[k] by {}
    }
}

} // verus!
