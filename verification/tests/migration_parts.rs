//! The parts of a migration: endpoints, memory, connections, and what the
//! monitor does around it.
use vmm_core::migration::connections::BUFFERED_REQUESTS_PER_THREAD;
use vmm_core::migration::connections::CHUNK_SIZE;
use vmm_core::migration::connections::ExtraEvent;
use vmm_core::migration::connections::ExtraStep;
use vmm_core::migration::connections::MemoryEvent;
use vmm_core::migration::connections::MemorySend;
use vmm_core::migration::connections::MemoryStep;
use vmm_core::migration::connections::PendingData;
use vmm_core::migration::connections::SendAdditionalConnections;
use vmm_core::migration::connections::SendMemoryThreadMessage;
use vmm_core::migration::connections::SendMemoryThreadNotify;
use vmm_core::migration::connections::TryNotify;
use vmm_core::migration::connections::WaitStep;
use vmm_core::migration::connections::WorkerAction;
use vmm_core::migration::connections::after_gate_notify;
use vmm_core::migration::connections::after_send;
use vmm_core::migration::connections::buffer_size;
use vmm_core::migration::connections::chunk_outcome;
use vmm_core::migration::connections::count_sent;
use vmm_core::migration::connections::died;
use vmm_core::migration::connections::error_of;
use vmm_core::migration::connections::handle_requests;
use vmm_core::migration::connections::needs_request;
use vmm_core::migration::connections::on_message;
use vmm_core::migration::endpoint::Endpoint;
use vmm_core::migration::endpoint::Listener;
use vmm_core::migration::endpoint::MIGRATION_READ_TIMEOUT_MS;
use vmm_core::migration::endpoint::MIGRATION_WRITE_TIMEOUT_MS;
use vmm_core::migration::endpoint::Readiness;
use vmm_core::migration::endpoint::SocketStep;
use vmm_core::migration::endpoint::accept_steps;
use vmm_core::migration::endpoint::connect_steps;
use vmm_core::migration::endpoint::destination;
use vmm_core::migration::endpoint::host_of;
use vmm_core::migration::endpoint::readiness;
use vmm_core::migration::endpoint::source;
use vmm_core::migration::error::Failure;
use vmm_core::migration::error::MigratableError;
use vmm_core::migration::error::Reason;
use vmm_core::migration::memory::MemoryRange;
use vmm_core::migration::memory::Transfer;
use vmm_core::migration::memory::checked_total;
use vmm_core::migration::memory::page_count;
use vmm_core::migration::memory::total_length;
use vmm_core::migration::progress::MigrationState;
use vmm_core::migration::progress::MigrationStateOngoingPhase;
use vmm_core::migration::progress::ProgressUpdate;
use vmm_core::migration::progress::TransportationMode;
use vmm_core::migration::protocol::Command;
use vmm_core::migration::result::Aftermath;
use vmm_core::migration::result::Resumption;
use vmm_core::migration::result::VmSendMigrationData;
use vmm_core::migration::result::needs_resume;
use vmm_core::vmm::config::CpusConfig;
use vmm_core::vmm::config::MemoryConfig;
use vmm_core::vmm::config::VmConfig;
use vmm_core::vmm::host::Host;
use vmm_core::vmm::ownership::MaybeVmOwnership;
use vmm_core::vmm::state::PostMigrationLifecycleEvent;
use vmm_core::vmm::state::Vmm;
use vmm_core::vmm::state::VmState;
use vmm_core::vmm::version::BuildFeatures;
use vmm_core::vmm::version::VmmVersionInfo;

struct Toy;

impl Host for Toy {
    type Vm = u32;
    type MigratingVm = &'static str;
    type Worker = u64;
    type Console = String;
    type Device = String;
    type MemoryFile = String;
    type ReceivedMemory = Vec<u8>;
    type Error = &'static str;
}

const ERROR: &str = "error";

fn range(gpa: u64, length: u64) -> MemoryRange {
    MemoryRange { gpa, length }
}

#[test]
fn destinations() {
    assert!(matches!(
        destination("tcp:10.0.0.1:4444", false),
        Ok(Endpoint::Tcp(a)) if a == "10.0.0.1:4444"
    ));
    assert!(matches!(
        destination("tcp:host:4444", true),
        Ok(Endpoint::Tls(a, host)) if a == "host:4444" && host == "host"
    ));
    assert!(matches!(
        destination("unix:/tmp/sock", true),
        Ok(Endpoint::Unix(p)) if p == "/tmp/sock"
    ));
    assert!(matches!(
        destination("unix:tcp:x", false),
        Ok(Endpoint::Unix(p)) if p == "tcp:x"
    ));
    assert!(matches!(destination("tcp:", false), Ok(Endpoint::Tcp(a)) if a.is_empty()));
    for url in ["", "tcp", "TCP:host", "file:///tmp", " tcp:host"] {
        assert!(matches!(
            destination(url, false),
            Err(Reason::InvalidDestination)
        ));
        assert!(matches!(source(url, false), Err(Reason::InvalidSource)));
    }
}

#[test]
fn hosts() {
    assert_eq!(host_of("host:4444"), "host");
    assert_eq!(host_of("host"), "host");
    assert_eq!(host_of("::1"), "");
    assert_eq!(host_of("a:b:c"), "a");
    assert_eq!(host_of("höst:1"), "höst");
}

#[test]
fn sources() {
    assert!(matches!(
        source("tcp:0.0.0.0:1", false),
        Ok(Listener::Tcp(a)) if a == "0.0.0.0:1"
    ));
    assert!(matches!(
        source("tcp:0.0.0.0:1", true),
        Ok(Listener::Tls(a)) if a == "0.0.0.0:1"
    ));
    assert!(matches!(
        source("unix:/tmp/sock", true),
        Ok(Listener::Unix(p)) if p == "/tmp/sock"
    ));
}

#[test]
fn connections_are_set_up_in_steps() {
    assert_eq!(
        connect_steps(&Endpoint::Tcp("a".to_string()), true),
        vec![
            SocketStep::Connect,
            SocketStep::SetReadTimeout(10_000),
            SocketStep::SetWriteTimeout(5_000),
            SocketStep::StartKeepAlive(true, 5_000),
        ]
    );
    assert_eq!(
        connect_steps(&Endpoint::Tls("a".to_string(), "h".to_string()), false),
        vec![
            SocketStep::Connect,
            SocketStep::SetReadTimeout(10_000),
            SocketStep::SetWriteTimeout(5_000),
            SocketStep::TlsHandshake,
        ]
    );
    assert_eq!(
        connect_steps(&Endpoint::Unix("p".to_string()), true),
        vec![SocketStep::Connect]
    );
    assert_eq!(
        accept_steps(&Listener::Tls("a".to_string()), true, false),
        vec![
            SocketStep::AcceptWithin(60_000),
            SocketStep::SetReadTimeout(10_000),
            SocketStep::SetWriteTimeout(5_000),
            SocketStep::TlsHandshake,
            SocketStep::StartKeepAlive(false, 5_000),
        ]
    );
    assert_eq!(
        accept_steps(&Listener::Tcp("a".to_string()), false, false),
        vec![
            SocketStep::AcceptWithin(60_000),
            SocketStep::SetReadTimeout(10_000),
            SocketStep::SetWriteTimeout(5_000),
        ]
    );
    assert_eq!(
        accept_steps(&Listener::Unix("p".to_string()), true, true),
        vec![SocketStep::Accept, SocketStep::RemovePath]
    );
    assert_eq!(
        accept_steps(&Listener::Unix("p".to_string()), true, false),
        vec![SocketStep::Accept]
    );
    assert!(MIGRATION_WRITE_TIMEOUT_MS < MIGRATION_READ_TIMEOUT_MS);
}

#[test]
fn the_event_comes_before_the_connection() {
    let pollin = libc::POLLIN as u16;
    assert_eq!(readiness(-1, pollin, pollin), Readiness::PollFailed);
    assert_eq!(readiness(2, pollin, pollin), Readiness::Signaled);
    assert_eq!(readiness(1, 0, pollin), Readiness::Readable);
    assert_eq!(
        readiness(2, libc::POLLHUP as u16, pollin | libc::POLLHUP as u16),
        Readiness::Readable
    );
}

#[test]
fn memory_is_counted() {
    let ranges = [range(0, 4096), range(1 << 32, 1), range(5, 0)];
    assert_eq!(total_length(&ranges), 4097);
    assert_eq!(checked_total(&ranges), Some(4097));
    assert_eq!(checked_total(&[]), Some(0));
    assert_eq!(checked_total(&[range(0, u64::MAX), range(0, 1)]), None);
    assert_eq!(page_count(0), 0);
    assert_eq!(page_count(1), 1);
    assert_eq!(page_count(4096), 1);
    assert_eq!(page_count(4097), 2);
    assert_eq!(page_count(u64::MAX), 1 << 52);
}

#[test]
fn a_transfer_goes_on_where_it_stopped() {
    let mut transfer = Transfer::new(vec![range(100, 10), range(500, 0), range(u64::MAX, 1)]);
    assert_eq!(transfer.next_piece(), Some(range(100, 10)));
    transfer.advance(4);
    assert_eq!(transfer.next_piece(), Some(range(104, 6)));
    transfer.advance(0);
    assert_eq!(transfer.next_piece(), Some(range(104, 6)));
    transfer.advance(6);
    assert_eq!(transfer.next_piece(), Some(range(500, 0)));
    transfer.advance(0);
    assert_eq!(transfer.next_piece(), Some(range(u64::MAX, 1)));
    transfer.advance(1);
    assert_eq!(transfer.next_piece(), None);
    assert_eq!(Transfer::new(vec![]).next_piece(), None);
}

#[test]
fn additional_connections_are_opened_if_wanted() {
    assert_eq!(BUFFERED_REQUESTS_PER_THREAD, 64);
    assert_eq!(CHUNK_SIZE, 64 << 20);
    assert_eq!(buffer_size(3), 192);
    assert!(!SendAdditionalConnections::new(1).wants_more());
    let mut connections = SendAdditionalConnections::new(2);
    assert!(connections.wants_more());
    assert!(matches!(connections.connected::<&str>(Ok(())), Ok(true)));
    assert!(matches!(connections.connected::<&str>(Ok(())), Ok(false)));
    assert_eq!(connections.opened, 2);

    let mut connections = SendAdditionalConnections::new(2);
    assert!(matches!(
        connections.connected(Err(MigratableError::Outside("e"))),
        Ok(false)
    ));
    assert_eq!(connections.opened, 0);
    let mut connections = SendAdditionalConnections::new(2);
    connections.connected::<&str>(Ok(())).unwrap();
    assert!(matches!(
        connections.connected(Err(MigratableError::Outside("e"))),
        Err(MigratableError::Outside("e"))
    ));
}

#[test]
fn a_sending_thread() {
    let chunk = SendMemoryThreadMessage::Memory(vec![range(0, 1)]);
    assert_eq!(on_message(&chunk, false), WorkerAction::Send);
    assert_eq!(on_message(&chunk, true), WorkerAction::Receive);
    assert_eq!(
        on_message(&SendMemoryThreadMessage::Gate, true),
        WorkerAction::NotifyGate
    );
    assert_eq!(
        on_message(&SendMemoryThreadMessage::Disconnect, false),
        WorkerAction::Stop
    );
    assert_eq!(after_send(true, true), WorkerAction::Receive);
    assert_eq!(after_send(false, true), WorkerAction::Stop);
    assert_eq!(after_send(false, false), WorkerAction::NotifyError);
    assert_eq!(after_gate_notify(true), WorkerAction::WaitAtGate);
    assert_eq!(after_gate_notify(false), WorkerAction::Stop);
    assert_eq!(count_sent(5, &[range(0, 6), range(9, 7)]), 18);
}

#[test]
fn all_threads_are_waited_for() {
    let mut pending = PendingData::new(2);
    assert!(matches!(pending.before_poll::<&str>(false), WaitStep::Poll));
    assert!(matches!(
        pending.before_poll::<&str>(true),
        WaitStep::Cancel
    ));
    assert!(matches!(
        pending.notified::<&str>(TryNotify::Empty),
        WaitStep::Poll
    ));
    assert!(matches!(
        pending.notified::<&str>(TryNotify::Notified(SendMemoryThreadNotify::Gate)),
        WaitStep::Poll
    ));
    assert!(matches!(
        pending.notified(TryNotify::Notified(SendMemoryThreadNotify::Error(
            MigratableError::Outside("e")
        ))),
        WaitStep::OpenGate(Err(MigratableError::Outside("e")))
    ));
    assert!(matches!(
        pending.notified::<&str>(TryNotify::Disconnected),
        WaitStep::Return(Err(MigratableError::MigrateSend(Failure::Reason(
            Reason::SendersDied
        ))))
    ));
    assert!(matches!(
        pending.notified::<&str>(TryNotify::Notified(SendMemoryThreadNotify::Gate)),
        WaitStep::OpenGate(Ok(()))
    ));
}

#[test]
fn memory_is_sent_by_the_main_thread() {
    let mut send = MemorySend::new(0, 2);
    assert_eq!(send.next_step(false, false), MemoryStep::SendChunk);
    assert_eq!(send.next_step(true, false), MemoryStep::Cancel);
    assert_eq!(
        send.advance(MemoryEvent::Taken, false, true),
        MemoryStep::SendChunk
    );
    assert_eq!(
        send.advance(MemoryEvent::Taken, true, false),
        MemoryStep::Done
    );
    assert_eq!(MemorySend::new(0, 0).next_step(true, false), MemoryStep::Done);
}

#[test]
fn memory_is_sent_by_threads() {
    let mut send = MemorySend::new(3, 2);
    assert_eq!(send.next_step(false, false), MemoryStep::OfferChunk);
    assert_eq!(
        send.advance(MemoryEvent::Full, false, false),
        MemoryStep::Sleep
    );
    assert_eq!(
        send.advance(MemoryEvent::Slept, false, false),
        MemoryStep::OfferChunk
    );
    assert_eq!(
        send.advance(MemoryEvent::Slept, false, true),
        MemoryStep::TakeError
    );
    assert_eq!(
        send.advance(MemoryEvent::Slept, true, true),
        MemoryStep::Cancel
    );
    assert_eq!(
        send.advance(MemoryEvent::Disconnected, false, false),
        MemoryStep::Died
    );
    assert_eq!(
        send.advance(MemoryEvent::Taken, false, false),
        MemoryStep::OfferChunk
    );
    assert_eq!(
        send.advance(MemoryEvent::Taken, false, false),
        MemoryStep::WaitForPending
    );
    assert_eq!(
        send.advance(MemoryEvent::Finished, false, false),
        MemoryStep::Done
    );
    assert!(matches!(
        died::<&str>(),
        MigratableError::MigrateSend(Failure::Reason(Reason::SendingThreadsDied))
    ));
    assert!(error_of::<&str>(SendMemoryThreadNotify::Gate).is_none());
    assert!(matches!(
        error_of(SendMemoryThreadNotify::Error(MigratableError::Outside("e"))),
        Some(MigratableError::Outside("e"))
    ));
}

#[test]
fn a_chunk_is_acknowledged() {
    assert!(!needs_request(&[]));
    assert!(needs_request(&[range(0, 0)]));
    assert!(chunk_outcome::<&str>(true).is_ok());
    assert!(matches!(
        chunk_outcome::<&str>(false),
        Err(MigratableError::MigrateSend(Failure::Reason(
            Reason::BadMemoryResponse
        )))
    ));
}

#[test]
fn additional_connections_take_memory_only() {
    assert!(matches!(
        handle_requests(ExtraEvent::Waited(Readiness::Readable, "e")),
        ExtraStep::ReadRequest
    ));
    assert!(matches!(
        handle_requests(ExtraEvent::Waited(Readiness::Signaled, "e")),
        ExtraStep::Finished(Ok(()))
    ));
    assert!(matches!(
        handle_requests(ExtraEvent::Waited(Readiness::PollFailed, "e")),
        ExtraStep::Finished(Err(MigratableError::MigrateReceive(Failure::Outside("e"))))
    ));
    assert!(matches!(
        handle_requests::<&str>(ExtraEvent::Request(Command::Memory, 32)),
        ExtraStep::Fill(32)
    ));
    for command in [
        Command::Invalid,
        Command::Start,
        Command::Config,
        Command::State,
        Command::Complete,
        Command::Abandon,
        Command::MemoryFd,
    ] {
        assert!(matches!(
            handle_requests::<&str>(ExtraEvent::Request(command, 32)),
            ExtraStep::Finished(Err(MigratableError::MigrateReceive(Failure::Reason(
                Reason::OnlyMemoryCommands
            ))))
        ));
    }
    assert!(matches!(
        handle_requests::<&str>(ExtraEvent::Closed),
        ExtraStep::Finished(Ok(()))
    ));
    assert!(matches!(
        handle_requests(ExtraEvent::Failed("e")),
        ExtraStep::Finished(Err(MigratableError::Outside("e")))
    ));
    assert!(matches!(
        handle_requests(ExtraEvent::FillFailed("e")),
        ExtraStep::Finished(Err(MigratableError::MigrateReceive(Failure::Outside("e"))))
    ));
    assert!(matches!(
        handle_requests::<&str>(ExtraEvent::Filled),
        ExtraStep::Answer
    ));
    assert!(matches!(
        handle_requests::<&str>(ExtraEvent::Answered),
        ExtraStep::Wait
    ));
}

fn monitor() -> Vmm<Toy> {
    let features = BuildFeatures {
        dbus_api: false,
        dhat_heap: false,
        fw_cfg: false,
        guest_debug: false,
        igvm: false,
        io_uring: false,
        kvm: true,
        mshv: false,
        sev_snp: false,
        tdx: false,
        tracing: false,
        ivshmem: false,
        x86_64: true,
    };
    let mut vmm: Vmm<Toy> = Vmm::new(VmmVersionInfo::new("build", "version"), features, false);
    vmm.vm = MaybeVmOwnership::Vmm(5);
    vmm.vm_config = Some(VmConfig {
        cpus: CpusConfig {
            boot_vcpus: 1,
            nested: false,
            threads_per_core: None,
            amx: false,
        },
        memory: MemoryConfig {
            size: 4096,
            zones: None,
        },
        balloon: None,
        serial_url: None,
        disks: None,
        net: None,
        fs: None,
        pmem: None,
        devices: None,
        user_devices: None,
        vdpa: None,
        vsock: None,
        tdx: false,
        sev_snp: false,
        landlock_enable: false,
    });
    vmm
}

fn data(local: bool) -> VmSendMigrationData {
    VmSendMigrationData {
        destination_url: "tcp:host:1".to_string(),
        local,
        downtime: 300,
        migration_timeout: 0,
        connections: 4,
        tls: true,
        keep_alive: false,
    }
}

fn sending() -> Vmm<Toy> {
    let mut vmm = monitor();
    let vm = vmm
        .vm_send_migration(&data(false), VmState::Running, false, "rest")
        .unwrap();
    assert_eq!(vm, 5);
    vmm.migration_thread_started(99);
    vmm
}

#[test]
fn a_running_vm_is_handed_out() {
    let mut vmm = sending();
    assert!(matches!(vmm.vm, MaybeVmOwnership::Migration("rest")));
    let progress = vmm.vm_migration_progress().unwrap();
    assert_eq!(progress.transportation_mode, TransportationMode::Tcp(4, true));
    assert_eq!(progress.downtime_ms, 300);
    assert_eq!(
        progress.state,
        MigrationState::Ongoing(MigrationStateOngoingPhase::Starting)
    );
    assert_eq!(vmm.vm_cancel_migration().unwrap(), &99);
    assert_eq!(progress.last_update, None);
    assert_eq!(progress.failure, None);
    let update = ProgressUpdate {
        phase: MigrationStateOngoingPhase::MemoryPrecopy,
        memory: None,
        throttle_percent: Some(20),
        calculated_downtime_ns: Some(7),
    };
    vmm.update_progress(update);
    let progress = vmm.vm_migration_progress().unwrap();
    assert_eq!(
        progress.state,
        MigrationState::Ongoing(MigrationStateOngoingPhase::MemoryPrecopy)
    );
    assert_eq!(progress.last_update, Some(update));
    assert_eq!(progress.downtime_ms, 300);
    assert!(matches!(
        vmm.vm_send_migration(&data(false), VmState::Running, false, "rest"),
        Err(MigratableError::MigrateSend(Failure::Reason(
            Reason::AlreadyMigrating
        )))
    ));
}

#[test]
fn some_vms_are_not_handed_out() {
    let mut vmm = monitor();
    vmm.postponed_lifecycle_event = Some(PostMigrationLifecycleEvent::VmReboot);
    assert!(matches!(
        vmm.vm_send_migration(&data(true), VmState::Running, false, "rest"),
        Err(MigratableError::MigrateSend(Failure::Reason(
            Reason::LocalNeedsSharedMemory
        )))
    ));
    assert_eq!(vmm.postponed_lifecycle_event, None);
    assert!(matches!(
        vmm.vm_send_migration(&data(true), VmState::Paused, true, "rest"),
        Err(MigratableError::MigrateSend(Failure::Reason(
            Reason::OnlyRunningVms
        )))
    ));
    assert!(matches!(vmm.vm, MaybeVmOwnership::Vmm(5)));
    assert!(matches!(
        vmm.vm_cancel_migration(),
        Err(MigratableError::CancelMigration(Failure::Reason(
            Reason::NoMigration
        )))
    ));
    vmm.vm = MaybeVmOwnership::Absent;
    assert!(matches!(
        vmm.vm_send_migration(&data(true), VmState::Running, true, "rest"),
        Err(MigratableError::MigrateSend(Failure::Reason(
            Reason::VmNotRunning
        )))
    ));
    assert_eq!(vmm.vm_migration_progress(), None);

    let mut vmm = monitor();
    vmm.vm_send_migration(&data(true), VmState::Running, true, "rest")
        .unwrap();
    assert_eq!(
        vmm.vm_migration_progress().unwrap().transportation_mode,
        TransportationMode::Local
    );
}

#[test]
fn a_vm_comes_back_if_no_thread_starts() {
    let mut vmm = monitor();
    let vm = vmm
        .vm_send_migration(&data(false), VmState::Running, false, "rest")
        .unwrap();
    assert!(matches!(
        vmm.migration_thread_failed(vm, ERROR, "no thread".to_string()),
        MigratableError::MigrateSend(Failure::Outside(_))
    ));
    assert!(matches!(vmm.vm, MaybeVmOwnership::Vmm(5)));
    let progress = vmm.vm_migration_progress().unwrap();
    assert_eq!(progress.state, MigrationState::Failed);
    assert_eq!(progress.failure, Some("no thread".to_string()));
}

#[test]
fn a_migration_that_succeeds_ends_the_monitor_unless_it_stays() {
    for keep_alive in [false, true] {
        let mut vmm = sending();
        vmm.postponed_lifecycle_event = Some(PostMigrationLifecycleEvent::VmReboot);
        assert_eq!(vmm.take_migration_thread(), 99);
        assert_eq!(vmm.migration_thread_handle, None);
        assert_eq!(
            vmm.migration_succeeded(keep_alive),
            Aftermath {
                exit: !keep_alive,
                replay: None,
                stop_dirty_log: false
            }
        );
        assert!(matches!(vmm.vm, MaybeVmOwnership::Absent));
        assert_eq!(vmm.postponed_lifecycle_event, None);
        assert_eq!(
            vmm.vm_migration_progress().unwrap().state,
            MigrationState::Finished
        );
    }
}

#[test]
fn a_migration_that_fails_gives_the_vm_back() {
    for (e, resumption) in [
        (
            MigratableError::MigrateSend(Failure::Reason(Reason::TimedOut)),
            Resumption::Resumed,
        ),
        (MigratableError::Cancelled, Resumption::NotNeeded),
        (MigratableError::Outside(ERROR), Resumption::Failed),
    ] {
        let cancelled = matches!(e, MigratableError::Cancelled);
        let mut vmm = sending();
        vmm.postponed_lifecycle_event = Some(PostMigrationLifecycleEvent::VmShutdown);
        vmm.take_migration_thread();
        assert_eq!(
            vmm.migration_failed(6, &e, "text".to_string(), resumption),
            Aftermath {
                exit: resumption == Resumption::Failed,
                replay: Some(PostMigrationLifecycleEvent::VmShutdown),
                stop_dirty_log: true
            }
        );
        assert!(matches!(vmm.vm, MaybeVmOwnership::Vmm(6)));
        assert_eq!(vmm.postponed_lifecycle_event, None);
        let progress = vmm.vm_migration_progress().unwrap();
        if cancelled {
            assert_eq!(progress.state, MigrationState::Cancelled);
            assert_eq!(progress.failure, None);
        } else {
            assert_eq!(progress.state, MigrationState::Failed);
            assert_eq!(progress.failure, Some("text".to_string()));
        }
    }
    assert!(needs_resume(VmState::Paused));
    assert!(!needs_resume(VmState::Running));
}

#[test]
fn reasons_have_texts() {
    assert_eq!(Reason::TimedOut.message(), "Migration timed out");
    assert_eq!(
        Reason::DowntimeOutOfRange.message(),
        "downtime_limit must be an integer in the range of 1 to 2000000 ms"
    );
    assert_eq!(
        Reason::AbortedBySender.message(),
        "Migration was aborted by sender"
    );
}
