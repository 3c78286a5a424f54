//! The events, the threads and the migrations of the monitor.
use crate::migration::error::Failure;
use crate::migration::error::MigratableError;
use crate::migration::error::Reason;
use crate::migration::progress::MigrationProgress;
use crate::migration::progress::MigrationState;
use crate::migration::progress::MigrationStateOngoingPhase;
use crate::migration::progress::ProgressUpdate;
use crate::migration::progress::TransportationMode;
use crate::migration::result::VmSendMigrationData;
use crate::vmm::config::Addition;
use crate::vmm::config::ConfigModel;
use crate::vmm::config::RestoredNetConfig;
use crate::vmm::config::VmConfig;
use crate::vmm::control::EventStep;
use crate::vmm::control::Origin;
use crate::vmm::dispatch;
use crate::vmm::dispatch::EpollDispatch;
use crate::vmm::effect::AfterShutdown;
use crate::vmm::effect::Effect;
use crate::vmm::effect::Outcome;
use crate::vmm::effect::Pending;
use crate::vmm::effect::Single;
use crate::vmm::effect::Step;
use crate::vmm::error::VmError;
use crate::vmm::host::Host;
use crate::vmm::ownership::MaybeVmOwnership;
use crate::vmm::startup;
use crate::vmm::startup::HttpEndpoint;
use crate::vmm::startup::StartOptions;
use crate::vmm::startup::StartStep;
use crate::vmm::startup::ThreadRole;
use crate::vmm::startup::ThreadStep;
use crate::vmm::state::VmmModel;
use crate::vmm::state::VmState;
use crate::vmm::version;
use crate::vmm::version::BuildFeatures;
use vstd::prelude::*;

verus! {

/// An event has its own number, and a number that no event has is unknown.
pub proof fn law_event_numbers(v: u64, w: u64)
    ensures
        dispatch::dispatch_of(v) == EpollDispatch::Unknown <==> v > 6,
        v <= 6 && dispatch::dispatch_of(v) == dispatch::dispatch_of(w) ==> v == w,
        v <= 6 ==> dispatch::dispatch_of(v).number() == v,
{
}

/// As many requests are taken as the event has counted, and nothing else
/// changes.
pub proof fn law_all_requests_are_taken<H: Host>(m: VmmModel<H>, count: u64)
    ensures
        m.on_event(EpollDispatch::Api, count) == (m, EventStep::<H>::TakeApiRequests(count)),
        m.on_event(EpollDispatch::Debug, count) == (m, EventStep::<H>::TakeDebugRequests(count)),
        m.on_event(EpollDispatch::CheckMigration, count) == (m, EventStep::<H>::CheckMigration),
        m.on_event(EpollDispatch::Unknown, count) == (m, EventStep::<H>::Nothing),
        m.on_event(EpollDispatch::ActivateVirtioDevices, count).0 == m,
        m.on_event(EpollDispatch::ActivateVirtioDevices, count).1 is ActivateDevices <==> !(
        m.vm is Absent),
        m.vm is Absent ==> m.on_event(EpollDispatch::ActivateVirtioDevices, count).1 is Nothing,
{
}

/// What becomes of a VM that the monitor owns when an event says that it ends.
/// The exit event ends it and deletes its configuration. The reset event lets
/// it start again. The guest's own exit does the same as the exit event, but if
/// the monitor is to stay, then the configuration stays too.
pub proof fn law_events_end_the_vm<H: Host>(m: VmmModel<H>, count: u64)
    requires
        m.vm is Vmm,
        m.vm_config is Some,
    ensures
        ({
            let (next, step) = m.on_event(EpollDispatch::Exit, count);
            &&& next == (VmmModel { console_info: None, ..m })
            &&& step == EventStep::<H>::Handle(
                Step::Do(Effect::ShutdownVm, Pending::Shutdown(AfterShutdown::Delete)),
                Origin::Exit,
            )
        }),
        m.on_event(EpollDispatch::Reset, count) == (
            m,
            EventStep::<H>::Handle(
                Step::Do(Effect::ShutdownVm, Pending::RebootShutdown),
                Origin::Reset,
            ),
        ),
        ({
            let (next, step) = m.on_event(EpollDispatch::GuestExit, count);
            &&& next == (VmmModel { console_info: None, ..m })
            &&& m.no_shutdown ==> step == EventStep::<H>::Handle(
                Step::Do(Effect::ShutdownVm, Pending::Shutdown(AfterShutdown::Reply)),
                Origin::GuestExit,
            )
            &&& !m.no_shutdown ==> step == EventStep::<H>::Handle(
                Step::Do(Effect::ShutdownVm, Pending::Shutdown(AfterShutdown::Delete)),
                Origin::GuestExitLast,
            )
        }),
{
}

/// A VM that is created is only configured: it gets its console, and the process
/// is restricted by landlock if and only if the configuration says so.
pub proof fn law_creation_restricts_as_configured<H: Host>(
    m: VmmModel<H>,
    config: ConfigModel<H::Device>,
    console: H::Console,
)
    requires
        m.vm is Absent,
        m.vm_config is None,
    ensures
        ({
            let (m1, s1) = m.create(config);
            let (m2, s2) = m1.resume(Pending::CreateConsole, Outcome::Console(console));
            let (m3, s3) = m2.resume(Pending::CreateLandlock, Outcome::Done);
            &&& s1 == Step::<H>::Do(Effect::CreateConsole, Pending::CreateConsole)
            &&& m2 == (VmmModel { vm_config: Some(config), console_info: Some(console), ..m })
            &&& config.landlock_enable ==> s2 == Step::<H>::Do(
                Effect::ApplyLandlock,
                Pending::CreateLandlock,
            )
            &&& !config.landlock_enable ==> s2 == Step::<H>::Reply(Ok(None))
            &&& s3 == Step::<H>::Reply(Ok(None))
            &&& m3 == m2
        }),
{
}

/// The processors of a snapshot are compared with those of the host where KVM
/// runs on x86-64, and only there. A configuration with TDX cannot be compared,
/// and is refused if TDX is supported.
pub proof fn law_processors_are_compared<H: Host>(
    m: VmmModel<H>,
    url: String,
    prefault: bool,
    nets: Option<Vec<RestoredNetConfig>>,
    config: VmConfig<H::Device>,
)
    requires
        m.vm is Absent,
        m.vm_config is None,
    ensures
        ({
            let (next, step) = m.resume(
                Pending::RestoreSnapshot(url, prefault, nets, config),
                Outcome::Done,
            );
            let compares = m.features.kvm && m.features.x86_64;
            let refuses = compares && m.features.tdx && config.tdx;
            &&& refuses ==> next == m && step == Step::<H>::Reply(
                Err(
                    VmError::Restore(
                        MigratableError::MigrateReceive(Failure::Reason(Reason::TdxEnabled)),
                    ),
                ),
            )
            &&& compares && !refuses ==> next == m && step == Step::<H>::Do(
                Effect::CheckCpuid(config.cpus.amx),
                Pending::RestoreCpuid(url, prefault, nets, config),
            )
            &&& !compares ==> next.vm_config is Some && step == Step::<H>::Do(
                Effect::CreateConsole,
                Pending::RestoreConsole(url, prefault),
            )
        }),
{
}

/// A snapshot is sent to where it was asked for, once it was taken.
pub proof fn law_snapshots_go_where_they_are_wanted<H: Host>(m: VmmModel<H>, url: String)
    requires
        m.vm is Vmm,
    ensures
        ({
            let (m1, s1) = m.snapshot(url);
            let (m2, s2) = m1.resume(Pending::Snapshot(url), Outcome::Done);
            let (m3, s3) = m2.resume(Pending::SnapshotSend, Outcome::Done);
            &&& s1 == Step::<H>::Do(Effect::SnapshotVm, Pending::Snapshot(url))
            &&& s2 == Step::<H>::Do(Effect::SendSnapshot(url), Pending::SnapshotSend)
            &&& s3 == Step::<H>::Reply(Ok(None))
            &&& m3 == (VmmModel { console_info: None, ..m })
        }),
{
}

/// A device that is valid is added to a running VM, and what the VM says of it
/// is the answer.
pub proof fn law_hot_add<H: Host>(m: VmmModel<H>, addition: Addition<H::Device>, bytes: Vec<u8>)
    requires
        m.vm is Vmm,
        m.vm_config is Some,
        addition is Vsock ==> m.vm_config->Some_0.vsock is None,
    ensures
        m.add(addition) == Step::<H>::Do(Effect::ValidateAddition, Pending::AddValidate(addition)),
        ({
            let (m1, s1) = m.resume(Pending::AddValidate(addition), Outcome::Done);
            let (m2, s2) = m1.resume(Pending::Info, Outcome::Done);
            let (m3, s3) = m2.resume(Pending::Serialize, Outcome::Bytes(bytes));
            &&& s1 == Step::<H>::Do(Effect::HotAdd(addition), Pending::Info)
            &&& s2 == Step::<H>::Do(Effect::SerializeInfo, Pending::Serialize)
            &&& s3 == Step::<H>::Reply(Ok(Some(bytes)))
            &&& m3 == m
        }),
{
}

/// The device that is removed is the one that was named: from the VM if there
/// is one, else from the configuration, which has to have it.
pub proof fn law_named_device_is_removed<H: Host>(m: VmmModel<H>, id: String, found: bool)
    ensures
        m.vm is Vmm ==> m.remove(id) == Step::<H>::Do(
            Effect::RemoveDevice(id),
            Pending::Single(Single::Vm),
        ),
        m.vm is Absent && m.vm_config is Some ==> m.remove(id) == Step::<H>::Do(
            Effect::RemoveFromConfig(id),
            Pending::RemoveCold(id),
        ),
        m.vm is Absent && m.vm_config is None ==> m.remove(id) == Step::<H>::Reply(
            Err(VmError::VmNotCreated),
        ),
        m.resume(Pending::RemoveCold(id), Outcome::Found(found)) == (
            m,
            if found {
                Step::<H>::Reply(Ok(None))
            } else {
                Step::<H>::Reply(Err(VmError::NoDeviceToRemove(id)))
            },
        ),
{
}

/// A request that needs nothing but its effect ends with it, and its failure
/// says what has failed, and why.
pub proof fn law_failures_are_named<H: Host>(m: VmmModel<H>, single: Single, e: H::Error)
    ensures
        m.resume(Pending::Single(single), Outcome::Done) == (m, Step::<H>::Reply(Ok(None))),
        ({
            let (next, step) = m.resume(Pending::Single(single), Outcome::Failed(e));
            &&& next == m
            &&& single is Pause ==> step == Step::<H>::Reply(Err(VmError::Pause(e)))
            &&& single is Resume ==> step == Step::<H>::Reply(Err(VmError::Resume(e)))
            &&& single is Coredump ==> step == Step::<H>::Reply(Err(VmError::Coredump(e)))
            &&& single is Vm ==> step == Step::<H>::Reply(Err(VmError::Vm(e)))
        }),
{
}

/// The location of a VM is announced only if it runs.
pub proof fn law_only_running_vms_are_announced<H: Host>(m: VmmModel<H>, state: VmState)
    ensures
        m.announce(state) is Do <==> m.vm is Vmm && state is Running,
        m.announce(state) is Do ==> m.announce(state) == Step::<H>::Do(
            Effect::AnnounceVm,
            Pending::Single(Single::Vm),
        ),
        m.vm is Migration ==> m.announce(state) == Step::<H>::Reply(Err(VmError::VmMigrating)),
        !(m.vm is Migration) && !(m.announce(state) is Do) ==> m.announce(state)
            == Step::<H>::Reply(Err(VmError::VmNotRunning)),
{
}

/// What is told of a migration that has just begun: the downtime that was
/// allowed, and how its memory gets to the other host; neither a report nor a
/// failure. The VM is not with the monitor, and an earlier wish is forgotten.
pub proof fn law_migration_begins_as_configured<H: Host>(
    m: VmmModel<H>,
    data: VmSendMigrationData,
    rest: H::MigratingVm,
)
    ensures
        ({
            let next = m.sending(data, rest);
            &&& next == (VmmModel {
                vm: MaybeVmOwnership::Migration(rest),
                progress: next.progress,
                postponed_lifecycle_event: None,
                ..m
            })
            &&& next.progress is Some
            &&& ({
                let p = next.progress->Some_0;
                &&& p.downtime_ms == data.downtime
                &&& data.local ==> p.transportation_mode == TransportationMode::Local
                &&& !data.local ==> p.transportation_mode == TransportationMode::Tcp(
                    data.connections,
                    data.tls,
                )
                &&& p.state == MigrationState::Ongoing(MigrationStateOngoingPhase::Starting)
                &&& p.last_update is None
                &&& p.failure is None
            })
        }),
{
}

/// Two migrations that are configured differently are told apart from their
/// start, and no report changes how they are configured.
pub proof fn law_configuration_of_a_migration_is_kept<H: Host>(
    m: VmmModel<H>,
    data: VmSendMigrationData,
    other: VmSendMigrationData,
    rest: H::MigratingVm,
    update: ProgressUpdate,
)
    ensures
        data.downtime != other.downtime ==> m.sending(data, rest).progress != m.sending(
            other,
            rest,
        ).progress,
        data.local != other.local ==> m.sending(data, rest).progress != m.sending(
            other,
            rest,
        ).progress,
        ({
            let p = m.sending(data, rest).progress->Some_0;
            let q = m.sending(data, rest).with_update(update).progress->Some_0;
            q.downtime_ms == p.downtime_ms && q.transportation_mode == p.transportation_mode
        }),
{
}

/// What a migration reports is what is told of it: its phase and its metrics,
/// as they came. Only the last report is kept.
pub proof fn law_last_report_counts<H: Host>(
    m: VmmModel<H>,
    first: ProgressUpdate,
    last: ProgressUpdate,
)
    requires
        m.progress is Some,
    ensures
        m.with_update(last).progress is Some,
        m.with_update(last) == (VmmModel { progress: m.with_update(last).progress, ..m }),
        ({
            let before = m.progress->Some_0;
            let after = m.with_update(last).progress->Some_0;
            &&& after.state == MigrationState::Ongoing(last.phase)
            &&& after.last_update == Some(last)
            &&& after.failure == before.failure
        }),
        m.with_update(first).with_update(last) == m.with_update(last),
{
}

/// A migration that succeeded leaves no VM behind and is told to be finished.
/// The configured values and the last report stay, and no wish does.
pub proof fn law_successful_migration_ends<H: Host>(m: VmmModel<H>)
    requires
        m.progress is Some,
    ensures
        m.sent() == (VmmModel {
            vm: MaybeVmOwnership::Absent,
            postponed_lifecycle_event: None,
            progress: Some(
                MigrationProgress { state: MigrationState::Finished, ..m.progress->Some_0 },
            ),
            ..m
        }),
{
}

/// A migration that did not succeed gives the VM back. It is told to be
/// cancelled if it was, and else to have failed, with what was said of the
/// error. In any case the configured values and the last report stay, and no
/// wish does.
pub proof fn law_failed_migration_ends<H: Host>(
    m: VmmModel<H>,
    vm: H::Vm,
    e: MigratableError<H::Error>,
    text: String,
)
    requires
        m.progress is Some,
    ensures
        m.not_sent(vm, e, text).vm == MaybeVmOwnership::<H>::Vmm(vm),
        m.not_sent(vm, e, text).postponed_lifecycle_event is None,
        m.not_sent(vm, e, text).vm_config == m.vm_config,
        m.not_sent(vm, e, text).console_info == m.console_info,
        m.not_sent(vm, e, text).progress is Some,
        ({
            let before = m.progress->Some_0;
            let after = m.not_sent(vm, e, text).progress->Some_0;
            &&& after.state is Cancelled <==> e is Cancelled
            &&& after.state is Failed <==> !(e is Cancelled)
            &&& e is Cancelled ==> after.failure == before.failure
            &&& !(e is Cancelled) ==> after.failure == Some(text)
            &&& after.downtime_ms == before.downtime_ms
            &&& after.transportation_mode == before.transportation_mode
            &&& after.last_update == before.last_update
        }),
{
}

/// Whether a step comes before another wherever both are taken.
pub open spec fn comes_before<S>(steps: Seq<S>, first: S, second: S) -> bool {
    forall|i: int, k: int|
        0 <= i < steps.len() && 0 <= k < steps.len() && #[trigger] steps[i] == first
            && #[trigger] steps[k] == second ==> i < k
}

/// The monitor is started with what was asked for and built in, and with
/// nothing else. Its own thread comes before the APIs that it serves, and the
/// seccomp filter before that thread.
pub proof fn law_start_is_what_was_asked_for(options: StartOptions)
    ensures
        ({
            let steps = options.steps();
            &&& steps.contains(StartStep::SpawnVmmThread)
            &&& steps.contains(StartStep::CreateSeccompFilter)
            &&& steps.contains(StartStep::CloneApiEvent)
            &&& steps.contains(StartStep::CloneExitEvent)
            &&& steps.contains(StartStep::CloneDebugEvents) <==> options.features.guest_debug
            &&& steps.contains(StartStep::SpawnGdbThread) <==> options.features.guest_debug
                && options.debug_path
            &&& steps.contains(StartStep::StartDbus) <==> options.features.dbus_api && options.dbus
            &&& steps.contains(StartStep::CloneDbusEvents) <==> options.features.dbus_api
                && options.dbus
            &&& steps.contains(StartStep::StartHttp(HttpEndpoint::Path)) <==> options.http_path
            &&& steps.contains(StartStep::StartHttp(HttpEndpoint::Fd)) <==> options.http_fd
                && !options.http_path
            &&& !steps.contains(StartStep::StartHttp(HttpEndpoint::Nowhere))
            &&& comes_before(steps, StartStep::CreateSeccompFilter, StartStep::SpawnVmmThread)
            &&& comes_before(steps, StartStep::SpawnVmmThread, StartStep::StartDbus)
            &&& comes_before(steps, StartStep::CloneDbusEvents, StartStep::StartDbus)
            &&& comes_before(
                steps,
                StartStep::SpawnVmmThread,
                StartStep::StartHttp(HttpEndpoint::Path),
            )
            &&& comes_before(
                steps,
                StartStep::SpawnVmmThread,
                StartStep::StartHttp(HttpEndpoint::Fd),
            )
            &&& comes_before(steps, StartStep::SpawnVmmThread, StartStep::SpawnGdbThread)
        }),
{
    let steps = options.steps();
    let debug: int = if options.features.guest_debug {
        1
    } else {
        0
    };
    let dbus: int = if options.features.dbus_api && options.dbus {
        2
    } else {
        0
    };
    let http: int = if options.http_path || options.http_fd {
        1
    } else {
        0
    };
    if debug == 1 {
        assert(steps[0] == StartStep::CloneDebugEvents);
    }
    assert(steps[debug] == StartStep::CloneApiEvent);
    assert(steps[debug + 1] == StartStep::CreateSeccompFilter);
    assert(steps[debug + 2] == StartStep::CloneExitEvent);
    assert(steps[debug + 3] == StartStep::SpawnVmmThread);
    if dbus == 2 {
        assert(steps[debug + 4] == StartStep::CloneDbusEvents);
        assert(steps[debug + 5] == StartStep::StartDbus);
    }
    if http == 1 {
        assert(steps[debug + 4 + dbus] == StartStep::StartHttp(options.http()));
    }
    if debug == 1 && options.debug_path {
        assert(steps[debug + 4 + dbus + http] == StartStep::SpawnGdbThread);
    }
}

/// A thread does what it is for in any case, and does it last. Before, it is
/// restricted by its seccomp filter unless that is empty, and by landlock if
/// that is wanted; only the control loop waits with landlock until there is a
/// VM.
pub proof fn law_threads_restrict_themselves_first(
    role: ThreadRole,
    filter_empty: bool,
    landlock: bool,
)
    ensures
        ({
            let steps = startup::thread_plan(role, filter_empty, landlock);
            &&& steps.contains(ThreadStep::Run)
            &&& steps.contains(ThreadStep::ApplySeccompFilter) <==> !filter_empty
            &&& steps.contains(ThreadStep::ApplyLandlock) <==> landlock && !(role is Vmm)
            &&& steps.contains(ThreadStep::CreateLandlock) <==> landlock && !(role is Vmm)
            &&& comes_before(steps, ThreadStep::ApplySeccompFilter, ThreadStep::Run)
            &&& comes_before(steps, ThreadStep::ApplySeccompFilter, ThreadStep::CreateLandlock)
            &&& comes_before(steps, ThreadStep::CreateLandlock, ThreadStep::ApplyLandlock)
            &&& comes_before(steps, ThreadStep::ApplyLandlock, ThreadStep::Run)
        }),
{
    let steps = startup::thread_plan(role, filter_empty, landlock);
    let filter: int = if filter_empty {
        0
    } else {
        1
    };
    if filter == 1 {
        assert(steps[0] == ThreadStep::ApplySeccompFilter);
    }
    if landlock && !(role is Vmm) {
        assert(steps[filter] == ThreadStep::CreateLandlock);
        assert(steps[filter + 1] == ThreadStep::ApplyLandlock);
        assert(steps[filter + 2] == ThreadStep::Run);
    } else {
        assert(steps[filter] == ThreadStep::Run);
    }
}

proof fn lemma_one_more_name(
    names: Seq<Seq<char>>,
    present: bool,
    name: Seq<char>,
    x: Seq<char>,
)
    ensures
        (names + version::name_if(present, name)).contains(x) <==> names.contains(x) || (present
            && x == name),
{
    let last = version::name_if(present, name);
    let all = names + last;
    if names.contains(x) {
        let i = choose|i: int| 0 <= i < names.len() && names[i] == x;
        assert(all[i] == x);
    }
    if present && x == name {
        assert(all[names.len() as int] == x);
    }
    if all.contains(x) {
        let i = choose|i: int| 0 <= i < all.len() && all[i] == x;
        if i < names.len() {
            assert(names[i] == x);
        }
    }
}

/// The monitor names the features that it was built with, and no others.
pub proof fn law_features_are_named(f: BuildFeatures, x: Seq<char>)
    ensures
        version::feature_names(f).contains(x) <==> {
            ||| f.dbus_api && x == "dbus_api"@
            ||| f.dhat_heap && x == "dhat-heap"@
            ||| f.fw_cfg && x == "fw_cfg"@
            ||| f.guest_debug && x == "guest_debug"@
            ||| f.igvm && x == "igvm"@
            ||| f.io_uring && x == "io_uring"@
            ||| f.kvm && x == "kvm"@
            ||| f.mshv && x == "mshv"@
            ||| f.sev_snp && x == "sev_snp"@
            ||| f.tdx && x == "tdx"@
            ||| f.tracing && x == "tracing"@
            ||| f.ivshmem && x == "ivshmem"@
        },
{
    let n0 = Seq::<Seq<char>>::empty();
    let n1 = version::name_if(f.dbus_api, "dbus_api"@);
    assert(n0 + n1 =~= n1);
    lemma_one_more_name(n0, f.dbus_api, "dbus_api"@, x);
    let n2 = n1 + version::name_if(f.dhat_heap, "dhat-heap"@);
    lemma_one_more_name(n1, f.dhat_heap, "dhat-heap"@, x);
    let n3 = n2 + version::name_if(f.fw_cfg, "fw_cfg"@);
    lemma_one_more_name(n2, f.fw_cfg, "fw_cfg"@, x);
    let n4 = n3 + version::name_if(f.guest_debug, "guest_debug"@);
    lemma_one_more_name(n3, f.guest_debug, "guest_debug"@, x);
    let n5 = n4 + version::name_if(f.igvm, "igvm"@);
    lemma_one_more_name(n4, f.igvm, "igvm"@, x);
    let n6 = n5 + version::name_if(f.io_uring, "io_uring"@);
    lemma_one_more_name(n5, f.io_uring, "io_uring"@, x);
    let n7 = n6 + version::name_if(f.kvm, "kvm"@);
    lemma_one_more_name(n6, f.kvm, "kvm"@, x);
    let n8 = n7 + version::name_if(f.mshv, "mshv"@);
    lemma_one_more_name(n7, f.mshv, "mshv"@, x);
    let n9 = n8 + version::name_if(f.sev_snp, "sev_snp"@);
    lemma_one_more_name(n8, f.sev_snp, "sev_snp"@, x);
    let n10 = n9 + version::name_if(f.tdx, "tdx"@);
    lemma_one_more_name(n9, f.tdx, "tdx"@, x);
    let n11 = n10 + version::name_if(f.tracing, "tracing"@);
    lemma_one_more_name(n10, f.tracing, "tracing"@, x);
    lemma_one_more_name(n11, f.ivshmem, "ivshmem"@, x);
    assert(version::feature_names(f) == n11 + version::name_if(f.ivshmem, "ivshmem"@));
}

} // verus!
