//! The receiver of a migration.
use vmm_core::migration::error::Failure;
use vmm_core::migration::error::MigratableError;
use vmm_core::migration::error::Reason;
use vmm_core::migration::protocol::Command;
use vmm_core::migration::receive::ReceiveEffect;
use vmm_core::migration::receive::ReceiveMigrationState;
use vmm_core::migration::receive::ReceiveOutcome;
use vmm_core::migration::receive::ReceivePending;
use vmm_core::migration::receive::ReceiveSession;
use vmm_core::migration::receive::ReceiveStep;
use vmm_core::migration::receive::VmReceiveMigrationData;
use vmm_core::vmm::config::CpusConfig;
use vmm_core::vmm::config::MemoryConfig;
use vmm_core::vmm::config::MemoryZoneConfig;
use vmm_core::vmm::config::NetConfig;
use vmm_core::vmm::config::RestoredNetConfig;
use vmm_core::vmm::config::VmConfig;
use vmm_core::vmm::host::Host;
use vmm_core::vmm::ownership::MaybeVmOwnership;
use vmm_core::vmm::state::PostMigrationLifecycleEvent;
use vmm_core::vmm::state::Vmm;
use vmm_core::vmm::version::BuildFeatures;
use vmm_core::vmm::version::VmmVersionInfo;

struct Toy;

impl Host for Toy {
    type Vm = u32;
    type MigratingVm = ();
    type Worker = u64;
    type Console = String;
    type Device = String;
    type MemoryFile = &'static str;
    type ReceivedMemory = Vec<u8>;
    type Error = String;
}

type Answer = Result<(), MigratableError<String>>;

fn features() -> BuildFeatures {
    BuildFeatures {
        dbus_api: false,
        dhat_heap: false,
        fw_cfg: false,
        guest_debug: false,
        igvm: false,
        io_uring: false,
        kvm: true,
        mshv: false,
        sev_snp: false,
        tdx: true,
        tracing: false,
        ivshmem: false,
        x86_64: true,
    }
}

fn monitor() -> Vmm<Toy> {
    Vmm::new(VmmVersionInfo::new("build", "version"), features(), false)
}

fn config() -> VmConfig<String> {
    VmConfig {
        cpus: CpusConfig {
            boot_vcpus: 2,
            nested: false,
            threads_per_core: None,
            amx: false,
        },
        memory: MemoryConfig {
            size: 1 << 20,
            zones: Some(vec![zone("a", 10, Some(0)), zone("b", 20, None)]),
        },
        balloon: None,
        serial_url: Some("old".to_string()),
        disks: None,
        net: Some(vec![
            NetConfig {
                id: Some("n0".to_string()),
                fds: Some(vec![3]),
                device: "first".to_string(),
            },
            NetConfig {
                id: Some("n1".to_string()),
                fds: None,
                device: "second".to_string(),
            },
        ]),
        fs: None,
        pmem: None,
        devices: None,
        user_devices: None,
        vdpa: None,
        vsock: None,
        tdx: false,
        sev_snp: false,
        landlock_enable: false,
    }
}

fn zone(id: &str, size: u64, host_numa_node: Option<u32>) -> MemoryZoneConfig {
    MemoryZoneConfig {
        id: id.to_string(),
        size,
        host_numa_node,
    }
}

fn data(url: &str) -> VmReceiveMigrationData {
    VmReceiveMigrationData {
        receiver_url: url.to_string(),
        tls: false,
        net_fds: vec![],
        tcp_serial_url: None,
        zones: vec![],
    }
}

fn session(url: &str) -> ReceiveSession<Toy> {
    ReceiveSession::new(data(url), url.starts_with("unix:"))
}

/// What the outside does, and what it has seen.
struct Outside {
    commands: Vec<(Command, u64)>,
    config: VmConfig<String>,
    wish: Option<PostMigrationLifecycleEvent>,
    fail_at: &'static str,
    effects: Vec<&'static str>,
    slots: Vec<[u8; 4]>,
}

impl Outside {
    fn new(commands: &[Command]) -> Outside {
        Outside {
            commands: commands.iter().rev().map(|c| (*c, 16)).collect(),
            config: config(),
            wish: None,
            fail_at: "",
            effects: vec![],
            slots: vec![],
        }
    }

    fn perform(&mut self, effect: ReceiveEffect<Toy>) -> ReceiveOutcome<Toy> {
        let (name, outcome) = match effect {
            ReceiveEffect::Listen => ("listen", ReceiveOutcome::Done),
            ReceiveEffect::LoadTls => ("tls", ReceiveOutcome::Done),
            ReceiveEffect::Accept => ("accept", ReceiveOutcome::Done),
            ReceiveEffect::ReadRequest => match self.commands.pop() {
                Some((command, length)) => ("request", ReceiveOutcome::Request(command, length)),
                None => (
                    "request",
                    ReceiveOutcome::Failed("connection closed".to_string()),
                ),
            },
            ReceiveEffect::ReadMemoryFd => {
                let slot = self.slots.pop();
                let file = slot.map(|_| "file");
                (
                    "fd",
                    ReceiveOutcome::Descriptor(slot.unwrap_or([0; 4]), file),
                )
            }
            ReceiveEffect::ReadPayload(n) => {
                assert_eq!(n, 16);
                ("payload", ReceiveOutcome::Done)
            }
            ReceiveEffect::ParseConfig => {
                ("parse-config", ReceiveOutcome::Config(self.config.clone()))
            }
            ReceiveEffect::CheckCpuid(amx) => {
                assert_eq!(amx, self.config.cpus.amx);
                ("cpuid", ReceiveOutcome::Done)
            }
            ReceiveEffect::CreateConsole => {
                ("console", ReceiveOutcome::Console("console".to_string()))
            }
            ReceiveEffect::ApplyLandlock => ("landlock", ReceiveOutcome::Done),
            ReceiveEffect::CreateMemory => ("memory", ReceiveOutcome::Memory(vec![])),
            ReceiveEffect::OpenConnections(memory) => {
                ("connections", ReceiveOutcome::Memory(memory))
            }
            ReceiveEffect::ReadTable(n, memory) => {
                assert_eq!(n, 16);
                ("table", ReceiveOutcome::Memory(memory))
            }
            ReceiveEffect::FillMemory(mut memory) => {
                memory.push(1);
                ("fill", ReceiveOutcome::Memory(memory))
            }
            ReceiveEffect::ParseSnapshot => ("parse-state", ReceiveOutcome::Snapshot(self.wish)),
            ReceiveEffect::CloneEventFds => ("events", ReceiveOutcome::Done),
            ReceiveEffect::CreateVm(memory) => {
                ("create", ReceiveOutcome::Vm(memory.len() as u32))
            }
            ReceiveEffect::RestoreVm(vm) => ("restore", ReceiveOutcome::Vm(vm + 100)),
            ReceiveEffect::AnnounceVm => ("announce", ReceiveOutcome::Done),
            ReceiveEffect::ResumeVm => ("resume", ReceiveOutcome::Done),
            ReceiveEffect::WriteResetEvent => ("reset", ReceiveOutcome::Done),
            ReceiveEffect::WriteGuestExitEvent => ("guest-exit", ReceiveOutcome::Done),
            ReceiveEffect::Respond(true) => ("ok", ReceiveOutcome::Done),
            ReceiveEffect::Respond(false) => ("error", ReceiveOutcome::Done),
        };
        self.effects.push(name);
        if name == self.fail_at {
            ReceiveOutcome::Failed(format!("{name} failed"))
        } else {
            outcome
        }
    }

    fn run(&mut self, vmm: &mut Vmm<Toy>, session: &mut ReceiveSession<Toy>) -> Answer {
        let mut step = vmm.vm_receive_migration(session);
        loop {
            match step {
                ReceiveStep::Finished(answer) => return answer,
                ReceiveStep::Do(effect, pending) => {
                    let outcome = self.perform(effect);
                    assert!(pending.is_acceptable(&outcome));
                    step = vmm.receive(session, pending, outcome);
                }
            }
        }
    }
}

const WHOLE: [Command; 6] = [
    Command::Start,
    Command::Config,
    Command::Memory,
    Command::Memory,
    Command::State,
    Command::Complete,
];

#[test]
fn a_whole_migration_is_received() {
    let mut vmm = monitor();
    let mut outside = Outside::new(&WHOLE);
    let answer = outside.run(&mut vmm, &mut session("tcp:0.0.0.0:1"));
    assert!(answer.is_ok());
    assert_eq!(
        outside.effects,
        vec![
            "listen",
            "accept",
            "request",
            "ok",
            "request",
            "payload",
            "parse-config",
            "cpuid",
            "console",
            "memory",
            "connections",
            "ok",
            "request",
            "table",
            "fill",
            "ok",
            "request",
            "table",
            "fill",
            "ok",
            "request",
            "payload",
            "parse-state",
            "events",
            "create",
            "restore",
            "ok",
            "request",
            "announce",
            "resume",
            "ok"
        ]
    );
    // The memory was filled twice before the VM was created from it.
    assert!(matches!(vmm.vm, MaybeVmOwnership::Vmm(102)));
    assert_eq!(vmm.console_info, Some("console".to_string()));
    assert_eq!(vmm.vm_config.unwrap().serial_url, Some("old".to_string()));
}

#[test]
fn each_command_gets_one_answer() {
    for (commands, fail_at, answers) in [
        (&WHOLE[..], "", vec!["ok"; 6]),
        (&WHOLE[..2], "", vec!["ok"; 2]),
        (&WHOLE[..], "fill", vec!["ok", "ok", "error"]),
        // A command that may not come, and what is behind it.
        (
            &[Command::Start, Command::State, Command::Config][..],
            "",
            vec!["ok", "error"],
        ),
        (
            &[Command::Start, Command::Abandon, Command::Config][..],
            "",
            vec!["ok", "ok"],
        ),
    ] {
        let mut outside = Outside::new(commands);
        outside.fail_at = fail_at;
        let unread = commands.len() - answers.len();
        assert_eq!(
            outside
                .run(&mut monitor(), &mut session("tcp:0.0.0.0:1"))
                .is_ok(),
            unread == 0 && commands.len() == WHOLE.len()
        );
        assert_eq!(outside.commands.len(), unread);
        let given: Vec<&str> = outside
            .effects
            .iter()
            .filter(|effect| ["ok", "error"].contains(effect))
            .copied()
            .collect();
        assert_eq!(given, answers);
    }
}

#[test]
fn certificates_are_loaded_for_tls() {
    let mut vmm = monitor();
    let mut session = session("tcp:0.0.0.0:1");
    session.data.tls = true;
    let mut outside = Outside::new(&[Command::Start]);
    assert!(matches!(
        outside.run(&mut vmm, &mut session),
        Err(MigratableError::Outside(_))
    ));
    assert_eq!(
        outside.effects,
        vec!["listen", "tls", "accept", "request", "ok", "request"]
    );
}

#[test]
fn a_bad_url_is_refused_at_once() {
    let mut vmm = monitor();
    vmm.received_postponed_lifecycle_event = Some(PostMigrationLifecycleEvent::VmReboot);
    let mut outside = Outside::new(&[]);
    assert!(matches!(
        outside.run(&mut vmm, &mut session("http://example")),
        Err(MigratableError::MigrateSend(Failure::Reason(
            Reason::InvalidSource
        )))
    ));
    assert!(outside.effects.is_empty());
    assert_eq!(vmm.received_postponed_lifecycle_event, None);
}

#[test]
fn descriptors_come_by_slot() {
    let mut vmm = monitor();
    let mut session = session("unix:/tmp/sock");
    let mut outside = Outside::new(&[Command::Start, Command::MemoryFd, Command::MemoryFd]);
    outside.slots = vec![[1, 0, 0, 0], [0x78, 0x56, 0x34, 0x12]];
    assert!(outside.run(&mut vmm, &mut session).is_err());
    assert_eq!(session.files, vec![(0x1234_5678, "file"), (1, "file")]);
    let files = session.take_files();
    assert_eq!(files.len(), 2);
    assert_eq!(files[&1], "file");
    assert!(session.files.is_empty());

    // The last file of a slot counts.
    session.files = vec![(3, "old"), (4, "other"), (3, "new")];
    let files = session.take_files();
    assert_eq!(files[&3], "new");
    assert_eq!(files[&4], "other");
    assert_eq!(files.len(), 2);
}

#[test]
fn descriptors_need_a_unix_socket_and_must_be_there() {
    let mut vmm = monitor();
    let mut outside = Outside::new(&[Command::Start, Command::MemoryFd]);
    assert!(matches!(
        reason(outside.run(&mut vmm, &mut session("tcp:1.2.3.4:5"))),
        Reason::UnsupportedSocket
    ));
    assert_eq!(outside.effects.last(), Some(&"error"));

    let mut outside = Outside::new(&[Command::Start, Command::MemoryFd]);
    assert!(matches!(
        reason(outside.run(&mut vmm, &mut session("unix:/tmp/sock"))),
        Reason::NoDescriptor
    ));
}

/// The reason for which a migration was not received.
fn reason(answer: Answer) -> Reason {
    match answer {
        Err(MigratableError::CompleteMigration(Some(e))) => match *e {
            MigratableError::MigrateReceive(Failure::Reason(reason)) => reason,
            _ => panic!("the receiver should have failed for a reason"),
        },
        _ => panic!("the migration should not be complete"),
    }
}

#[test]
fn commands_out_of_order_are_refused() {
    let all = [
        Command::Invalid,
        Command::Start,
        Command::Config,
        Command::State,
        Command::Memory,
        Command::Complete,
        Command::Abandon,
        Command::MemoryFd,
    ];
    for (begin, allowed) in [
        (&WHOLE[..0], vec![Command::Start]),
        (&WHOLE[..1], vec![Command::Config, Command::MemoryFd]),
        (&WHOLE[..2], vec![Command::Memory, Command::State]),
        (&WHOLE[..5], vec![Command::Complete]),
    ] {
        for command in all {
            let mut vmm = monitor();
            let mut commands = begin.to_vec();
            commands.push(command);
            let mut outside = Outside::new(&commands);
            outside.slots = vec![[0; 4]];
            let answer = outside.run(&mut vmm, &mut session("unix:/tmp/sock"));
            if command == Command::Abandon {
                assert!(matches!(
                    answer,
                    Err(MigratableError::CompleteMigration(None))
                ));
                assert_eq!(outside.effects.last(), Some(&"ok"));
                assert!(vmm.vm_config.is_none());
                assert!(matches!(vmm.vm, MaybeVmOwnership::Absent));
            } else if allowed.contains(&command) {
                assert!(!matches!(
                    answer,
                    Err(MigratableError::CompleteMigration(_))
                ));
            } else {
                assert_eq!(reason(answer), Reason::UnexpectedCommand);
                assert_eq!(outside.effects.last(), Some(&"error"));
                assert!(vmm.vm_config.is_none());
                assert!(matches!(vmm.vm, MaybeVmOwnership::Absent));
            }
        }
    }
}

#[test]
fn a_command_is_handled_in_its_state() {
    let vmm = monitor();
    let mut session = session("unix:/tmp/sock");
    session.files = vec![(1, "stale")];
    let step = vmm.vm_receive_migration_step(
        &mut session,
        ReceiveMigrationState::Started,
        Command::MemoryFd,
        0,
    );
    assert!(matches!(
        step,
        ReceiveStep::Do(ReceiveEffect::ReadMemoryFd, ReceivePending::MemoryFd)
    ));
    assert!(session.files.is_empty());
    assert!(ReceiveMigrationState::<Toy>::Completed.finished());
    assert!(ReceiveMigrationState::<Toy>::Aborted.finished());
    assert!(!ReceiveMigrationState::<Toy>::StateReceived.finished());
}

#[test]
fn the_configuration_is_adapted_to_this_host() {
    let mut vmm = monitor();
    let mut session = session("tcp:1.2.3.4:5");
    session.data.tcp_serial_url = Some("new".to_string());
    session.data.zones = vec![zone("b", 20, Some(1)), zone("a", 10, None)];
    session.data.net_fds = vec![
        RestoredNetConfig {
            id: "n0".to_string(),
            fds: Some(vec![8, 9]),
        },
        RestoredNetConfig {
            id: "n1".to_string(),
            fds: Some(vec![10]),
        },
    ];
    let mut outside = Outside::new(&WHOLE);
    outside.run(&mut vmm, &mut session).unwrap();
    let config = vmm.vm_config.unwrap();
    assert_eq!(config.serial_url, Some("new".to_string()));
    assert_eq!(
        config.memory.zones,
        Some(vec![zone("a", 10, None), zone("b", 20, Some(1))])
    );
    let nets = config.net.unwrap();
    assert_eq!(nets[0].fds, Some(vec![8, 9]));
    assert_eq!(nets[1].fds, None);
    assert_eq!(nets[0].device, "first");
}

#[test]
fn zones_must_exist_and_keep_their_sizes() {
    for (zones, expected) in [
        (vec![zone("a", 11, None)], Reason::ZoneSizeChanged),
        (vec![zone("c", 10, None)], Reason::UnknownZone),
    ] {
        let mut vmm = monitor();
        let mut session = session("tcp:1.2.3.4:5");
        session.data.zones = zones;
        let mut outside = Outside::new(&WHOLE);
        assert_eq!(reason(outside.run(&mut vmm, &mut session)), expected);
    }
    let mut vmm = monitor();
    let mut session = session("tcp:1.2.3.4:5");
    session.data.zones = vec![zone("a", 10, None)];
    let mut outside = Outside::new(&WHOLE);
    outside.config.memory.zones = None;
    assert_eq!(reason(outside.run(&mut vmm, &mut session)), Reason::NoZones);
}

#[test]
fn a_tdx_guest_is_not_received() {
    let mut vmm = monitor();
    let mut outside = Outside::new(&WHOLE);
    outside.config.tdx = true;
    assert_eq!(
        reason(outside.run(&mut vmm, &mut session("tcp:1.2.3.4:5"))),
        Reason::TdxEnabled
    );
}

#[test]
fn landlock_is_applied_if_the_configuration_asks_for_it() {
    let mut vmm = monitor();
    let mut outside = Outside::new(&WHOLE);
    outside.config.landlock_enable = true;
    outside
        .run(&mut vmm, &mut session("tcp:1.2.3.4:5"))
        .unwrap();
    assert!(outside.effects.contains(&"landlock"));
}

#[test]
fn a_guest_gets_what_it_asked_for() {
    for (wish, effect) in [
        (None, "resume"),
        (Some(PostMigrationLifecycleEvent::VmReboot), "reset"),
        (Some(PostMigrationLifecycleEvent::VmShutdown), "guest-exit"),
    ] {
        let mut vmm = monitor();
        let mut outside = Outside::new(&WHOLE);
        outside.wish = wish;
        outside
            .run(&mut vmm, &mut session("tcp:1.2.3.4:5"))
            .unwrap();
        let n = outside.effects.len();
        assert_eq!(outside.effects[n - 3..], ["announce", effect, "ok"]);
        assert_eq!(vmm.received_postponed_lifecycle_event, None);
    }
}

#[test]
fn what_fails_outside_is_reported() {
    for fail_at in ["listen", "accept", "request", "ok"] {
        let mut vmm = monitor();
        let mut outside = Outside::new(&WHOLE);
        outside.fail_at = fail_at;
        let answer = outside.run(&mut vmm, &mut session("tcp:1.2.3.4:5"));
        if fail_at == "listen" || fail_at == "accept" {
            assert!(matches!(
                answer,
                Err(MigratableError::MigrateReceive(Failure::Outside(_)))
            ));
        } else {
            assert!(matches!(answer, Err(MigratableError::Outside(_))));
        }
    }
    for fail_at in [
        "payload",
        "parse-config",
        "cpuid",
        "console",
        "memory",
        "connections",
        "table",
        "fill",
        "parse-state",
        "events",
        "create",
        "restore",
        "resume",
    ] {
        let mut vmm = monitor();
        let mut outside = Outside::new(&WHOLE);
        outside.fail_at = fail_at;
        match outside.run(&mut vmm, &mut session("tcp:1.2.3.4:5")) {
            Err(MigratableError::CompleteMigration(Some(e))) => match (fail_at, *e) {
                ("payload", MigratableError::MigrateSocket(_)) => {}
                ("table" | "resume", MigratableError::Outside(_)) => {}
                (_, MigratableError::MigrateReceive(Failure::Outside(e))) => {
                    assert_eq!(e, format!("{fail_at} failed"));
                }
                _ => panic!("another error of {fail_at}"),
            },
            _ => panic!("the migration should fail at {fail_at}"),
        }
        assert_eq!(outside.effects.last(), Some(&"error"));
        assert!(vmm.vm_config.is_none());
        assert!(matches!(vmm.vm, MaybeVmOwnership::Absent));
    }
}
