//! The control loop, and how the monitor comes up and goes down.
use vmm_core::vmm::control::EventStep;
use vmm_core::vmm::control::LoopDecision;
use vmm_core::vmm::control::LoopOperation;
use vmm_core::vmm::control::Origin;
use vmm_core::vmm::control::after_api_request;
use vmm_core::vmm::control::after_request;
use vmm_core::vmm::control::is_consumed;
use vmm_core::vmm::control::operation_failed;
use vmm_core::vmm::control::wait_failed;
use vmm_core::vmm::dispatch::EpollDispatch;
use vmm_core::vmm::dispatch::registrations;
use vmm_core::vmm::effect::Effect;
use vmm_core::vmm::effect::Outcome;
use vmm_core::vmm::effect::Pending;
use vmm_core::vmm::effect::Step;
use vmm_core::vmm::error::Error;
use vmm_core::vmm::error::VmError;
use vmm_core::vmm::host::Host;
use vmm_core::vmm::ownership::MaybeVmOwnership;
use vmm_core::vmm::signals::HANDLED_SIGNALS;
use vmm_core::vmm::signals::LastResort;
use vmm_core::vmm::signals::SIGINT;
use vmm_core::vmm::signals::SIGTERM;
use vmm_core::vmm::signals::SignalAction;
use vmm_core::vmm::signals::exit_not_signaled;
use vmm_core::vmm::signals::on_signal;
use vmm_core::vmm::startup::HttpEndpoint;
use vmm_core::vmm::startup::StartOptions;
use vmm_core::vmm::startup::StartStep;
use vmm_core::vmm::startup::ThreadFailure;
use vmm_core::vmm::startup::ThreadRole;
use vmm_core::vmm::startup::ThreadStep;
use vmm_core::vmm::startup::event_record;
use vmm_core::vmm::startup::spawn_failed;
use vmm_core::vmm::startup::start_failed;
use vmm_core::vmm::startup::start_vmm_thread;
use vmm_core::vmm::startup::thread_error;
use vmm_core::vmm::startup::thread_failed;
use vmm_core::vmm::startup::thread_steps;
use vmm_core::vmm::state::PostMigrationLifecycleEvent;
use vmm_core::vmm::state::Vmm;
use vmm_core::vmm::version::BuildFeatures;
use vmm_core::vmm::version::VmmVersionInfo;
use vmm_core::vmm::version::feature_list;

struct Toy;

impl Host for Toy {
    type Vm = u32;
    type MigratingVm = ();
    type Worker = u64;
    type Console = String;
    type Device = String;
    type MemoryFile = String;
    type ReceivedMemory = Vec<u8>;
    type Error = &'static str;
}

fn no_features() -> BuildFeatures {
    BuildFeatures {
        dbus_api: false,
        dhat_heap: false,
        fw_cfg: false,
        guest_debug: false,
        igvm: false,
        io_uring: false,
        kvm: false,
        mshv: false,
        sev_snp: false,
        tdx: false,
        tracing: false,
        ivshmem: false,
        x86_64: false,
    }
}

fn monitor(no_shutdown: bool) -> Vmm<Toy> {
    let mut features = no_features();
    features.kvm = true;
    Vmm::new(VmmVersionInfo::new("v1-dirty", "v1"), features, no_shutdown)
}

fn with_vm(no_shutdown: bool) -> Vmm<Toy> {
    let mut vmm = monitor(no_shutdown);
    vmm.vm = MaybeVmOwnership::Vmm(1);
    vmm
}

#[test]
fn events_are_recognized_by_their_numbers() {
    let known = [
        EpollDispatch::Exit,
        EpollDispatch::Reset,
        EpollDispatch::Api,
        EpollDispatch::ActivateVirtioDevices,
        EpollDispatch::Debug,
        EpollDispatch::CheckMigration,
        EpollDispatch::GuestExit,
    ];
    for (i, dispatch) in known.into_iter().enumerate() {
        assert_eq!(EpollDispatch::from(i as u64), dispatch);
        assert_eq!(dispatch.token(), i as u64);
    }
    assert_eq!(EpollDispatch::from(7), EpollDispatch::Unknown);
    assert_eq!(EpollDispatch::from(u64::MAX), EpollDispatch::Unknown);
    assert_eq!(EpollDispatch::Unknown.token(), 7);
}

#[test]
fn events_are_registered_in_order() {
    assert_eq!(
        registrations(false),
        vec![
            EpollDispatch::Exit,
            EpollDispatch::Reset,
            EpollDispatch::GuestExit,
            EpollDispatch::ActivateVirtioDevices,
            EpollDispatch::Api,
            EpollDispatch::CheckMigration,
        ]
    );
    assert_eq!(registrations(true)[5], EpollDispatch::Debug);
    assert_eq!(registrations(true).len(), 7);
}

#[test]
fn an_interrupted_wait_goes_on() {
    assert!(matches!(wait_failed(true, "e"), LoopDecision::Continue));
    assert!(matches!(
        wait_failed(false, "e"),
        LoopDecision::Fail(Error::Epoll("e"))
    ));
}

#[test]
fn events_are_consumed_unless_unknown() {
    assert!(is_consumed(EpollDispatch::Exit, false));
    assert!(is_consumed(EpollDispatch::Debug, true));
    assert!(!is_consumed(EpollDispatch::Debug, false));
    assert!(!is_consumed(EpollDispatch::Unknown, true));
}

#[test]
fn the_exit_event_deletes_the_vm() {
    let mut vmm = monitor(true);
    assert!(matches!(
        vmm.on_event(EpollDispatch::Exit, 1),
        EventStep::Handle(Step::Reply(Ok(None)), Origin::Exit)
    ));
    assert!(matches!(
        after_request::<&str>(Origin::Exit, Ok(None)),
        LoopDecision::Stop
    ));
    assert!(matches!(
        after_request(Origin::Exit, Err(VmError::Vm("e"))),
        LoopDecision::Fail(Error::VmmShutdown(VmError::Vm("e")))
    ));
}

#[test]
fn the_reset_event_reboots_the_vm() {
    let mut vmm = with_vm(false);
    assert!(matches!(
        vmm.on_event(EpollDispatch::Reset, 1),
        EventStep::Handle(
            Step::Do(Effect::ShutdownVm, Pending::RebootShutdown),
            Origin::Reset
        )
    ));
    assert!(matches!(
        after_request::<&str>(Origin::Reset, Ok(None)),
        LoopDecision::Continue
    ));
    assert!(matches!(
        after_request(Origin::Reset, Err(VmError::Vm("e"))),
        LoopDecision::Fail(Error::VmReboot(_))
    ));
}

#[test]
fn a_guest_that_exits_ends_the_monitor_unless_it_stays() {
    let mut vmm = with_vm(true);
    match vmm.on_event(EpollDispatch::GuestExit, 1) {
        EventStep::Handle(Step::Do(Effect::ShutdownVm, pending), Origin::GuestExit) => {
            assert!(matches!(
                vmm.resume(pending, Outcome::Done),
                Step::Reply(Ok(None))
            ));
        }
        _ => panic!("the VM should be shut down"),
    }
    assert!(matches!(
        after_request::<&str>(Origin::GuestExit, Ok(None)),
        LoopDecision::Continue
    ));
    assert!(matches!(
        after_request(Origin::GuestExit, Err(VmError::Vm("e"))),
        LoopDecision::Fail(Error::VmShutdown(_))
    ));

    let mut vmm = monitor(false);
    assert!(matches!(
        vmm.on_event(EpollDispatch::GuestExit, 1),
        EventStep::Handle(Step::Reply(Ok(None)), Origin::GuestExitLast)
    ));
    assert!(matches!(
        after_request::<&str>(Origin::GuestExitLast, Ok(None)),
        LoopDecision::Stop
    ));
    assert!(matches!(
        after_request(Origin::GuestExitLast, Err(VmError::Vm("e"))),
        LoopDecision::Fail(Error::VmmShutdown(_))
    ));
}

#[test]
fn the_first_wish_of_a_migrating_guest_counts() {
    let mut vmm = monitor(false);
    vmm.vm = MaybeVmOwnership::Migration(());
    assert!(matches!(
        vmm.on_event(EpollDispatch::Reset, 1),
        EventStep::Nothing
    ));
    assert!(matches!(
        vmm.on_event(EpollDispatch::GuestExit, 1),
        EventStep::Nothing
    ));
    assert_eq!(
        vmm.current_postponed_lifecycle_event(),
        Some(PostMigrationLifecycleEvent::VmReboot)
    );
    vmm.clear_postponed_lifecycle_event();
    assert_eq!(vmm.current_postponed_lifecycle_event(), None);
    vmm.postpone_lifecycle_event_during_migration(PostMigrationLifecycleEvent::VmShutdown);
    vmm.postpone_lifecycle_event_during_migration(PostMigrationLifecycleEvent::VmReboot);
    assert_eq!(
        vmm.current_postponed_lifecycle_event(),
        Some(PostMigrationLifecycleEvent::VmShutdown)
    );
}

#[test]
fn other_events() {
    let mut vmm = monitor(false);
    assert!(matches!(
        vmm.on_event(EpollDispatch::ActivateVirtioDevices, 1),
        EventStep::Nothing
    ));
    assert!(matches!(
        vmm.on_event(EpollDispatch::Api, 3),
        EventStep::TakeApiRequests(3)
    ));
    assert!(matches!(
        vmm.on_event(EpollDispatch::Debug, 2),
        EventStep::TakeDebugRequests(2)
    ));
    assert!(matches!(
        vmm.on_event(EpollDispatch::CheckMigration, 1),
        EventStep::CheckMigration
    ));
    assert!(matches!(
        vmm.on_event(EpollDispatch::Unknown, 1),
        EventStep::Nothing
    ));
    assert!(matches!(vmm.debug_request(), Err(VmError::VmNotRunning)));

    let mut vmm = with_vm(false);
    assert!(matches!(
        vmm.on_event(EpollDispatch::ActivateVirtioDevices, 1),
        EventStep::ActivateDevices
    ));
    assert!(vmm.debug_request().is_ok());
    vmm.vm = MaybeVmOwnership::Migration(());
    assert!(matches!(
        vmm.on_event(EpollDispatch::ActivateVirtioDevices, 1),
        EventStep::ActivateDevices
    ));
    assert!(matches!(vmm.debug_request(), Err(VmError::VmNotRunning)));
}

#[test]
fn what_the_loop_needs_can_fail() {
    assert!(matches!(
        operation_failed(LoopOperation::ConsumeEvent, "e"),
        Error::EventFdRead("e")
    ));
    assert!(matches!(
        operation_failed(LoopOperation::ActivateDevices, "e"),
        Error::ActivateVirtioDevices("e")
    ));
    assert!(matches!(
        operation_failed(LoopOperation::ReceiveApiRequest, "e"),
        Error::ApiRequestRecv("e")
    ));
    assert!(matches!(
        operation_failed(LoopOperation::ReceiveDebugRequest, "e"),
        Error::GdbRequestRecv("e")
    ));
    assert!(matches!(
        operation_failed(LoopOperation::SendDebugResponse, "e"),
        Error::GdbResponseSend("e")
    ));
    assert!(matches!(
        operation_failed(LoopOperation::JoinThread, "e"),
        Error::ThreadCleanup("e")
    ));
    assert!(matches!(
        after_api_request::<&str>(Ok(true)),
        LoopDecision::Stop
    ));
    assert!(matches!(
        after_api_request::<&str>(Ok(false)),
        LoopDecision::Continue
    ));
    assert!(matches!(
        after_api_request(Err(Error::ApiResponseSend("e"))),
        LoopDecision::Fail(Error::ApiResponseSend("e"))
    ));
}

#[test]
fn the_monitor_starts_in_order() {
    let mut options = StartOptions {
        features: no_features(),
        dbus: true,
        http_path: false,
        http_fd: false,
        debug_path: true,
    };
    assert_eq!(
        start_vmm_thread(&options),
        vec![
            StartStep::CloneApiEvent,
            StartStep::CreateSeccompFilter,
            StartStep::CloneExitEvent,
            StartStep::SpawnVmmThread,
        ]
    );
    options.features.dbus_api = true;
    options.features.guest_debug = true;
    options.http_fd = true;
    assert_eq!(
        start_vmm_thread(&options),
        vec![
            StartStep::CloneDebugEvents,
            StartStep::CloneApiEvent,
            StartStep::CreateSeccompFilter,
            StartStep::CloneExitEvent,
            StartStep::SpawnVmmThread,
            StartStep::CloneDbusEvents,
            StartStep::StartDbus,
            StartStep::StartHttp(HttpEndpoint::Fd),
            StartStep::SpawnGdbThread,
        ]
    );
    // A path comes before a descriptor.
    options.http_path = true;
    assert_eq!(
        start_vmm_thread(&options)[7],
        StartStep::StartHttp(HttpEndpoint::Path)
    );
}

#[test]
fn a_step_of_the_start_can_fail() {
    for step in [
        StartStep::CloneDebugEvents,
        StartStep::CloneApiEvent,
        StartStep::CloneExitEvent,
        StartStep::CloneDbusEvents,
    ] {
        assert!(matches!(start_failed(step, "e"), Error::EventFdClone("e")));
    }
    assert!(matches!(
        start_failed(StartStep::CreateSeccompFilter, "e"),
        Error::CreateSeccompFilter("e")
    ));
    assert!(matches!(
        start_failed(StartStep::SpawnVmmThread, "e"),
        Error::VmmThreadSpawn("e")
    ));
    assert!(matches!(
        start_failed(StartStep::StartDbus, "e"),
        Error::Outside("e")
    ));
    assert!(matches!(
        start_failed(StartStep::StartHttp(HttpEndpoint::Path), "e"),
        Error::Outside("e")
    ));
    assert!(matches!(
        start_failed(StartStep::SpawnGdbThread, "e"),
        Error::GdbThreadSpawn("e")
    ));
}

#[test]
fn threads_restrict_themselves_first() {
    assert_eq!(
        thread_steps(ThreadRole::EventMonitor, false, true),
        vec![
            ThreadStep::ApplySeccompFilter,
            ThreadStep::CreateLandlock,
            ThreadStep::ApplyLandlock,
            ThreadStep::Run,
        ]
    );
    assert_eq!(
        thread_steps(ThreadRole::SignalHandler, true, true),
        vec![
            ThreadStep::CreateLandlock,
            ThreadStep::ApplyLandlock,
            ThreadStep::Run,
        ]
    );
    assert_eq!(
        thread_steps(ThreadRole::Vmm, false, true),
        vec![ThreadStep::ApplySeccompFilter, ThreadStep::Run]
    );
    assert_eq!(
        thread_steps(ThreadRole::Vmm, true, false),
        vec![ThreadStep::Run]
    );
}

#[test]
fn a_thread_that_fails() {
    let silent = ThreadFailure {
        signal_exit: false,
        goes_on: false,
    };
    let ends = ThreadFailure {
        signal_exit: true,
        goes_on: false,
    };
    let goes_on = ThreadFailure {
        signal_exit: true,
        goes_on: true,
    };
    for (role, step, failure) in [
        (ThreadRole::Vmm, ThreadStep::ApplySeccompFilter, silent),
        (ThreadRole::Vmm, ThreadStep::Run, silent),
        (ThreadRole::EventMonitor, ThreadStep::ApplySeccompFilter, ends),
        (ThreadRole::EventMonitor, ThreadStep::CreateLandlock, silent),
        (ThreadRole::EventMonitor, ThreadStep::ApplyLandlock, ends),
        (ThreadRole::EventMonitor, ThreadStep::Run, ends),
        (ThreadRole::SignalHandler, ThreadStep::ApplySeccompFilter, ends),
        (ThreadRole::SignalHandler, ThreadStep::CreateLandlock, goes_on),
        (ThreadRole::SignalHandler, ThreadStep::ApplyLandlock, goes_on),
        (ThreadRole::SignalHandler, ThreadStep::Run, ends),
    ] {
        assert_eq!(thread_failed(role, step), failure);
    }
    assert!(matches!(
        thread_error(ThreadStep::ApplySeccompFilter, "e"),
        Error::ApplySeccompFilter("e")
    ));
    assert!(matches!(
        thread_error(ThreadStep::CreateLandlock, "e"),
        Error::CreateLandlock("e")
    ));
    assert!(matches!(
        thread_error(ThreadStep::ApplyLandlock, "e"),
        Error::ApplyLandlock("e")
    ));
    assert!(matches!(
        thread_error(ThreadStep::Run, "e"),
        Error::Outside("e")
    ));
    assert!(matches!(
        spawn_failed(ThreadRole::Vmm, "e"),
        Error::VmmThreadSpawn("e")
    ));
    assert!(matches!(
        spawn_failed(ThreadRole::EventMonitor, "e"),
        Error::EventMonitorThreadSpawn("e")
    ));
    assert!(matches!(
        spawn_failed(ThreadRole::SignalHandler, "e"),
        Error::SignalHandlerSpawn("e")
    ));
}

#[test]
fn an_event_is_recorded_with_an_empty_line() {
    assert_eq!(event_record(b"{}"), b"{}\n\n".to_vec());
    assert_eq!(event_record(b""), b"\n\n".to_vec());
}

#[test]
fn signals_end_the_monitor() {
    assert_eq!(SIGTERM, libc::SIGTERM);
    assert_eq!(SIGINT, libc::SIGINT);
    assert_eq!(HANDLED_SIGNALS, [libc::SIGTERM, libc::SIGINT]);
    assert_eq!(on_signal(libc::SIGTERM), SignalAction::SignalExit);
    assert_eq!(on_signal(libc::SIGINT), SignalAction::SignalExit);
    assert_eq!(on_signal(libc::SIGWINCH), SignalAction::Ignore);
    assert_eq!(
        exit_not_signaled(false, true),
        LastResort::RestoreTerminalAndExit
    );
    assert_eq!(exit_not_signaled(false, false), LastResort::Exit);
    assert_eq!(exit_not_signaled(true, true), LastResort::Exit);
}

#[test]
fn features_are_listed_in_order() {
    let mut f = no_features();
    assert!(feature_list(&f).is_empty());
    f.ivshmem = true;
    f.kvm = true;
    f.dhat_heap = true;
    assert_eq!(feature_list(&f), vec!["dhat-heap", "kvm", "ivshmem"]);
    f = BuildFeatures {
        dbus_api: true,
        dhat_heap: true,
        fw_cfg: true,
        guest_debug: true,
        igvm: true,
        io_uring: true,
        kvm: true,
        mshv: true,
        sev_snp: true,
        tdx: true,
        tracing: true,
        ivshmem: true,
        x86_64: true,
    };
    assert_eq!(
        feature_list(&f),
        vec![
            "dbus_api",
            "dhat-heap",
            "fw_cfg",
            "guest_debug",
            "igvm",
            "io_uring",
            "kvm",
            "mshv",
            "sev_snp",
            "tdx",
            "tracing",
            "ivshmem"
        ]
    );
}

#[test]
fn a_ping_is_answered() {
    let pong = monitor(false).vmm_ping(4_000_000_000);
    assert_eq!(pong.build_version, "v1-dirty");
    assert_eq!(pong.version, "v1");
    assert_eq!(pong.pid, 4_000_000_000);
    assert_eq!(pong.features, vec!["kvm"]);
}

#[test]
fn errors_have_texts() {
    assert_eq!(
        Error::Epoll("e").message(),
        Some("Error creating epoll context")
    );
    assert_eq!(
        Error::EventMonitorThreadSpawn("e").message(),
        Some("Error spawning `event-monitor` thread")
    );
    assert_eq!(
        Error::VmReboot(VmError::Vm("e")).message(),
        Some("Error rebooting VM")
    );
    assert_eq!(Error::Outside("e").message(), None);
}
