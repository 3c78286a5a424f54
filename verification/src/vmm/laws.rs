//! What holds of all requests.
//!
//! * [`configuration`] says how a configuration is changed,
//! * [`lifecycle`] is about the events, the threads and the migrations of the
//!   monitor.
use crate::migration::error::MigratableError;
use crate::migration::result::VmSendMigrationData;
use crate::vmm::config;
use crate::vmm::config::Addition;
use crate::vmm::config::ConfigModel;
use crate::vmm::config::DeviceKind;
use crate::vmm::config::NetConfig;
use crate::vmm::config::RestoredNetConfig;
use crate::vmm::config::VmConfig;
use crate::vmm::dispatch::EpollDispatch;
use crate::vmm::effect::AfterShutdown;
use crate::vmm::effect::Effect;
use crate::vmm::effect::Outcome;
use crate::vmm::effect::Pending;
use crate::vmm::effect::Step;
use crate::vmm::error::VmError;
use crate::vmm::host::Host;
use crate::vmm::ownership::MaybeVmOwnership;
use crate::vmm::requests;
use crate::vmm::state::PostMigrationLifecycleEvent;
use crate::vmm::state::VmmModel;
use crate::vmm::state::VmState;
use vstd::prelude::*;

pub mod configuration;
pub mod lifecycle;

verus! {

/// While a VM is being migrated, no request can change it or the monitor: the
/// requests that concern the VM are refused, and those that would delete or
/// replace it as well.
pub proof fn law_migration_blocks_requests<H: Host>(
    m: VmmModel<H>,
    effect: Effect<H>,
    pending: Pending<H>,
    url: String,
    size: u64,
    ram: Option<u64>,
    balloon: Option<u64>,
    prefault: bool,
    nets: Option<Vec<RestoredNetConfig>>,
    state: VmState,
    addition: Addition<H::Device>,
)
    requires
        m.vm is Migration,
        m.vm_config is Some,
    ensures
        m.on_vm(effect, pending) == requests::fail::<H>(VmError::VmMigrating),
        m.boot() == (m, requests::fail::<H>(VmError::VmMigrating)),
        m.announce(state) == requests::fail::<H>(VmError::VmMigrating),
        m.snapshot(url) == (m, requests::fail::<H>(VmError::VmMigrating)),
        m.restore(Some(url), prefault, nets) == requests::fail::<H>(VmError::VmMigrating),
        m.shutdown(AfterShutdown::Reply) == (m, requests::fail::<H>(VmError::VmMigrating)),
        m.delete() == (m, requests::fail::<H>(VmError::VmMigrating)),
        m.resize(ram, balloon) == (m, requests::fail::<H>(VmError::VmMigrating)),
        m.resize_disk(url, size) == requests::fail::<H>(VmError::VmMigrating),
        m.resize_zone(url, size) == (m, requests::fail::<H>(VmError::VmMigrating)),
        m.remove(url) == requests::fail::<H>(VmError::VmMigrating),
        m.resume(Pending::AddValidate(addition), Outcome::Done) == (
            m,
            requests::fail::<H>(VmError::VmMigrating),
        ),
{
}

/// Without a VM, its operations are refused.
pub proof fn law_no_vm_no_operation<H: Host>(
    m: VmmModel<H>,
    effect: Effect<H>,
    pending: Pending<H>,
    url: String,
)
    requires
        m.vm is Absent,
    ensures
        m.on_vm(effect, pending) == requests::fail::<H>(VmError::VmNotRunning),
        m.snapshot(url) == (m, requests::fail::<H>(VmError::VmNotRunning)),
        m.shutdown(AfterShutdown::Reply) == (m, requests::fail::<H>(VmError::VmNotRunning)),
{
}

/// A VM can be created only once, until it is deleted.
pub proof fn law_created_once<H: Host>(
    m: VmmModel<H>,
    first: ConfigModel<H::Device>,
    second: ConfigModel<H::Device>,
)
    requires
        m.vm_config is None,
    ensures
        m.create(first).0.vm_config == Some(first),
        m.create(first).0.create(second) == (
            m.create(first).0,
            requests::fail::<H>(VmError::VmAlreadyCreated),
        ),
        m.vm is Absent ==> m.create(first).0.delete().0 == m,
{
    if m.vm is Absent {
        assert(m.create(first).0.delete().0 =~= m);
    }
}

/// The list of devices of a kind.
pub open spec fn listed<D>(config: ConfigModel<D>, kind: DeviceKind) -> Option<Seq<D>> {
    match kind {
        DeviceKind::Device => config.devices,
        DeviceKind::UserDevice => config.user_devices,
        DeviceKind::Disk => config.disks,
        DeviceKind::Fs => config.fs,
        DeviceKind::Pmem => config.pmem,
        DeviceKind::Vdpa => config.vdpa,
    }
}

/// A valid device that is added while no VM runs is the last of its kind in the
/// configuration, behind those that were there. The devices of other kinds
/// stay what they were.
pub proof fn law_cold_add<H: Host>(
    m: VmmModel<H>,
    kind: DeviceKind,
    other: DeviceKind,
    device: H::Device,
)
    requires
        m.vm is Absent,
        m.vm_config is Some,
    ensures
        ({
            let (next, step) = m.resume(
                Pending::AddValidate(Addition::Listed(kind, device)),
                Outcome::Done,
            );
            let before = m.vm_config->Some_0;
            let after = next.vm_config->Some_0;
            &&& step == requests::ok::<H>()
            &&& next.vm_config is Some
            &&& listed(after, kind) is Some
            &&& listed(after, kind)->Some_0.last() == device
            &&& match listed(before, kind) {
                Some(devices) => listed(after, kind)->Some_0 == devices.push(device),
                None => listed(after, kind)->Some_0.len() == 1,
            }
            &&& other != kind ==> listed(after, other) == listed(before, other)
            &&& after.net == before.net
            &&& after.vsock == before.vsock
            &&& next == (VmmModel { vm_config: next.vm_config, ..m })
        }),
{
}

/// A valid network device that is added while no VM runs is the last one in
/// the configuration, and nothing else changes.
pub proof fn law_cold_add_net<H: Host>(m: VmmModel<H>, net: NetConfig<H::Device>)
    requires
        m.vm is Absent,
        m.vm_config is Some,
    ensures
        ({
            let before = m.vm_config->Some_0;
            m.resume(Pending::AddValidate(Addition::Net(net)), Outcome::Done) == (
                VmmModel {
                    vm_config: Some(
                        ConfigModel {
                            net: match before.net {
                                Some(nets) => Some(nets.push(net@)),
                                None => Some(seq![net@]),
                            },
                            ..before
                        },
                    ),
                    ..m
                },
                requests::ok::<H>(),
            )
        }),
{
}

/// A valid vsock device that is added while no VM runs is part of the
/// configuration, nothing else changes, and a second one is refused then.
pub proof fn law_cold_add_vsock<H: Host>(m: VmmModel<H>, first: H::Device, second: H::Device)
    requires
        m.vm is Absent,
        m.vm_config is Some,
    ensures
        ({
            let (next, step) = m.resume(
                Pending::AddValidate(Addition::Vsock(first)),
                Outcome::Done,
            );
            &&& step == requests::ok::<H>()
            &&& next == (VmmModel {
                vm_config: Some(ConfigModel { vsock: Some(first), ..m.vm_config->Some_0 }),
                ..m
            })
            &&& next.add(Addition::Vsock(second)) == requests::fail::<H>(
                VmError::TooManyVsockDevices,
            )
        }),
{
}

/// A device that is not valid changes nothing, whoever owns the VM.
pub proof fn law_refused_add_changes_nothing<H: Host>(
    m: VmmModel<H>,
    addition: Addition<H::Device>,
    e: H::Error,
)
    ensures
        m.resume(Pending::AddValidate(addition), Outcome::Failed(e)) == (
            m,
            requests::fail::<H>(VmError::ConfigValidation(e)),
        ),
{
}

/// After a shutdown there is no VM, whether it went well or not. Its
/// configuration is kept unless it is to be deleted.
pub proof fn law_shutdown_ends_the_vm<H: Host>(
    m: VmmModel<H>,
    after: AfterShutdown<H::Error>,
    e: H::Error,
)
    ensures
        m.resume(Pending::Shutdown(after), Outcome::Done).0.vm is Absent,
        m.resume(Pending::Shutdown(after), Outcome::Failed(e)).0.vm is Absent,
        m.resume(Pending::Shutdown(AfterShutdown::Reply), Outcome::Done).0.vm_config == m.vm_config,
        m.resume(Pending::Shutdown(AfterShutdown::Delete), Outcome::Done).0.vm_config is None,
        m.resume(Pending::Shutdown(after), Outcome::Failed(e)).0.vm_config == m.vm_config,
{
}

/// A boot that finds everything it needs ends with a running VM, the one that
/// was created for it.
pub proof fn law_boot_completes<H: Host>(m: VmmModel<H>, console: H::Console, vm: H::Vm)
    requires
        m.vm is Absent,
        m.vm_config is Some,
        m.console_info is None,
    ensures
        m.boot() == (m, Step::<H>::Do(Effect::CreateConsole, Pending::BootConsole)),
        ({
            let (m1, s1) = m.resume(Pending::BootConsole, Outcome::Console(console));
            let (m2, s2) = m1.resume(Pending::BootEvents, Outcome::Done);
            let (m3, s3) = m2.resume(Pending::BootCreate, Outcome::Vm(vm));
            let (m4, s4) = m3.resume(Pending::BootBoot, Outcome::Done);
            &&& s1 == Step::<H>::Do(Effect::CloneEventFds, Pending::BootEvents)
            &&& s2 == Step::<H>::Do(Effect::CreateVm, Pending::BootCreate)
            &&& s3 == Step::<H>::Do(Effect::BootVm, Pending::BootBoot)
            &&& s4 == requests::ok::<H>()
            &&& m4 == (VmmModel {
                vm: MaybeVmOwnership::Vmm(vm),
                console_info: Some(console),
                ..m
            })
        }),
{
}

/// A reboot that goes well replaces the VM and its console, and keeps the
/// configuration.
pub proof fn law_reboot_completes<H: Host>(
    m: VmmModel<H>,
    console: H::Console,
    created: H::Vm,
    booted: H::Vm,
)
    requires
        m.vm is Vmm,
    ensures
        m.on_vm(Effect::ShutdownVm, Pending::RebootShutdown) == Step::<H>::Do(
            Effect::ShutdownVm,
            Pending::RebootShutdown,
        ),
        ({
            let (m1, s1) = m.resume(Pending::RebootShutdown, Outcome::Done);
            let (m2, s2) = m1.resume(Pending::RebootEvents, Outcome::Done);
            let (m3, s3) = m2.resume(Pending::RebootDrain, Outcome::Done);
            let (m4, s4) = m3.resume(Pending::RebootConsole, Outcome::Console(console));
            let (m5, s5) = m4.resume(Pending::RebootCreate, Outcome::Vm(created));
            let (m6, s6) = m5.resume(Pending::RebootBoot, Outcome::Vm(booted));
            &&& s1 == Step::<H>::Do(Effect::CloneEventFds, Pending::RebootEvents)
            &&& m1.vm is Absent && m1.console_info is None
            &&& s2 == Step::<H>::Do(Effect::DrainResetEvent, Pending::RebootDrain)
            &&& s3 == Step::<H>::Do(Effect::CreateConsole, Pending::RebootConsole)
            &&& s4 == Step::<H>::Do(Effect::CreateVm, Pending::RebootCreate)
            &&& s5 == Step::<H>::Do(Effect::BootNewVm(created), Pending::RebootBoot)
            &&& m5.vm is Absent
            &&& s6 == requests::ok::<H>()
            &&& m6 == (VmmModel {
                vm: MaybeVmOwnership::Vmm(booted),
                console_info: Some(console),
                ..m
            })
        }),
{
}

/// A restore that goes well ends with the restored VM, and with the
/// configuration of the snapshot in which network devices have their new
/// descriptors.
pub proof fn law_restore_completes<H: Host>(
    m: VmmModel<H>,
    url: String,
    prefault: bool,
    nets: Option<Vec<RestoredNetConfig>>,
    config: VmConfig<H::Device>,
    console: H::Console,
    vm: H::Vm,
)
    requires
        m.vm is Absent,
        m.vm_config is None,
        m.features.checks_cpuid() ==> !(m.features.tdx && config.tdx),
    ensures
        m.restore(Some(url), prefault, nets) == Step::<H>::Do(
            Effect::FetchConfig(url),
            Pending::RestoreConfig(url, prefault, nets),
        ),
        ({
            let restored = match nets {
                Some(nets) => config@.with_net_fds(config::restored_models(nets@)),
                None => config@,
            };
            let (m1, s1) = m.resume(
                Pending::RestoreConfig(url, prefault, nets),
                Outcome::Config(config),
            );
            let (m2, s2) = m1.resume(
                Pending::RestoreValidate(url, prefault, nets, config),
                Outcome::Done,
            );
            let (m3, s3) = m2.resume(
                Pending::RestoreSnapshot(url, prefault, nets, config),
                Outcome::Done,
            );
            let (m4, s4) = if m.features.checks_cpuid() {
                m3.resume(Pending::RestoreCpuid(url, prefault, nets, config), Outcome::Done)
            } else {
                (m3, s3)
            };
            let (m5, s5) = m4.resume(
                Pending::RestoreConsole(url, prefault),
                Outcome::Console(console),
            );
            let (m6, s6) = m5.resume(Pending::RestoreEvents(url, prefault), Outcome::Done);
            let (m7, s7) = m6.resume(Pending::RestoreCreate, Outcome::Vm(vm));
            let (m8, s8) = if config.landlock_enable {
                m7.resume(Pending::RestoreLandlock, Outcome::Done)
            } else {
                (m7, s7)
            };
            let (m9, s9) = m8.resume(Pending::RestoreVm, Outcome::Done);
            &&& s1 == Step::<H>::Do(
                Effect::ValidateRestore,
                Pending::RestoreValidate(url, prefault, nets, config),
            )
            &&& s2 == Step::<H>::Do(
                Effect::FetchSnapshot(url),
                Pending::RestoreSnapshot(url, prefault, nets, config),
            )
            &&& m.features.checks_cpuid() ==> s3 == Step::<H>::Do(
                Effect::CheckCpuid(config.cpus.amx),
                Pending::RestoreCpuid(url, prefault, nets, config),
            )
            &&& s4 == Step::<H>::Do(
                Effect::CreateConsole,
                Pending::RestoreConsole(url, prefault),
            )
            &&& s5 == Step::<H>::Do(
                Effect::CloneEventFds,
                Pending::RestoreEvents(url, prefault),
            )
            &&& s6 == Step::<H>::Do(
                Effect::CreateRestoredVm(url, prefault),
                Pending::RestoreCreate,
            )
            &&& config.landlock_enable ==> s7 == Step::<H>::Do(
                Effect::ApplyLandlock,
                Pending::RestoreLandlock,
            )
            &&& s8 == Step::<H>::Do(Effect::RestoreVm, Pending::RestoreVm)
            &&& s9 == requests::ok::<H>()
            &&& m9 == (VmmModel {
                vm: MaybeVmOwnership::Vmm(vm),
                vm_config: Some(restored),
                console_info: Some(console),
                ..m
            })
        }),
{
}

/// A restore that fails leaves neither a VM nor a configuration behind: what
/// was created is shut down first, and then the error of the restore is
/// reported.
pub proof fn law_failed_restore_leaves_nothing<H: Host>(
    m: VmmModel<H>,
    pending: Pending<H>,
    e: H::Error,
)
    requires
        VmmModel::is_restoring(pending),
        m.vm is Migration ==> m.vm_config is None,
    ensures
        ({
            let (next, step) = m.resume(pending, Outcome::Failed(e));
            let error = VmmModel::failure(pending, e);
            if m.vm is Vmm && m.vm_config is Some {
                &&& step == Step::<H>::Do(
                    Effect::ShutdownVm,
                    Pending::Shutdown(AfterShutdown::FailedRestore(error)),
                )
                &&& ({
                    let (last, reply) = next.resume(
                        Pending::Shutdown(AfterShutdown::FailedRestore(error)),
                        Outcome::Done,
                    );
                    last.vm is Absent && last.vm_config is None && reply == requests::fail::<H>(
                        error,
                    )
                })
            } else {
                next.vm_config is None && step == requests::fail::<H>(error)
            }
        }),
{
}

/// Only the first wish of a guest that is being migrated counts, and no wish
/// leads to anything else meanwhile.
pub proof fn law_first_wish_counts<H: Host>(m: VmmModel<H>, count: u64)
    requires
        m.vm is Migration,
        m.postponed_lifecycle_event is None,
    ensures
        ({
            let (m1, s1) = m.on_event(EpollDispatch::Reset, count);
            let (m2, s2) = m1.on_event(EpollDispatch::GuestExit, count);
            &&& s1 is Nothing && s2 is Nothing
            &&& m1 == (VmmModel {
                postponed_lifecycle_event: Some(PostMigrationLifecycleEvent::VmReboot),
                ..m
            })
            &&& m2 == m1
        }),
        ({
            let (m1, s1) = m.on_event(EpollDispatch::GuestExit, count);
            let (m2, s2) = m1.on_event(EpollDispatch::Reset, count);
            &&& s1 is Nothing && s2 is Nothing
            &&& m1 == (VmmModel {
                postponed_lifecycle_event: Some(PostMigrationLifecycleEvent::VmShutdown),
                ..m
            })
            &&& m2 == m1
        }),
{
}

/// The monitor's own bookkeeping: a VM has a configuration, and a migration is
/// ongoing if and only if the VM is not with the monitor.
pub open spec fn consistent<H: Host>(m: VmmModel<H>) -> bool {
    &&& !(m.vm is Absent) ==> m.vm_config is Some
    &&& m.vm is Migration ==> m.migration_thread_handle is Some
    &&& m.migration_thread_handle is Some ==> m.vm is Migration
    &&& (m.progress matches Some(p) && p.is_ongoing()) <==> m.vm is Migration
}

/// A request keeps the bookkeeping consistent, and so does whatever comes of
/// it while no migration is going on.
pub proof fn law_requests_keep_consistency<H: Host>(
    m: VmmModel<H>,
    pending: Pending<H>,
    outcome: Outcome<H>,
    config: ConfigModel<H::Device>,
    url: String,
    size: u64,
    ram: Option<u64>,
    balloon: Option<u64>,
    after: AfterShutdown<H::Error>,
)
    requires
        consistent(m),
        !(m.vm is Migration),
        pending.accepts(outcome),
        // A VM is created from a configuration.
        outcome is Vm ==> m.vm_config is Some,
    ensures
        consistent(m.create(config).0),
        consistent(m.boot().0),
        consistent(m.snapshot(url).0),
        consistent(m.shutdown(after).0),
        consistent(m.delete().0),
        consistent(m.resize(ram, balloon).0),
        consistent(m.resize_zone(url, size).0),
        consistent(m.resume(pending, outcome).0),
{
}

/// The migration of a VM keeps the bookkeeping consistent, from its begin with
/// a thread to its end, and gives the VM back if it was not sent.
pub proof fn law_migration_keeps_consistency<H: Host>(
    m: VmmModel<H>,
    data: VmSendMigrationData,
    rest: H::MigratingVm,
    worker: H::Worker,
    vm: H::Vm,
    e: MigratableError<H::Error>,
    text: String,
)
    requires
        consistent(m),
        m.vm is Vmm,
    ensures
        ({
            let sending = VmmModel {
                migration_thread_handle: Some(worker),
                ..m.sending(data, rest)
            };
            let joined = VmmModel { migration_thread_handle: None, ..sending };
            &&& consistent(sending)
            &&& consistent(joined.sent())
            &&& joined.sent().vm is Absent
            &&& consistent(joined.not_sent(vm, e, text))
            &&& joined.not_sent(vm, e, text).vm == MaybeVmOwnership::<H>::Vmm(vm)
            &&& joined.not_sent(vm, e, text).vm_config == m.vm_config
            &&& joined.sent().postponed_lifecycle_event is None
            &&& joined.not_sent(vm, e, text).postponed_lifecycle_event is None
        }),
{
}

/// Moving memory zones changes their host nodes only.
pub proof fn law_zones_keep_their_sizes(
    zones: Seq<config::ZoneModel>,
    updates: Seq<config::ZoneModel>,
    i: int,
)
    requires
        0 <= i < zones.len(),
    ensures
        config::adopt(zones, updates).0.len() == zones.len(),
        config::adopt(zones, updates).0[i].id == zones[i].id,
        config::adopt(zones, updates).0[i].size == zones[i].size,
    decreases updates.len(),
{
    if updates.len() > 0 {
        let update = updates.first();
        if let Some(k) = config::zone_index(zones, update.id) {
            lemma_zone_index_range(zones, update.id);
            if zones[k].size == update.size {
                law_zones_keep_their_sizes(
                    zones.update(
                        k,
                        config::ZoneModel { host_numa_node: update.host_numa_node, ..zones[k] },
                    ),
                    updates.drop_first(),
                    i,
                );
            }
        }
    }
}

proof fn lemma_zone_index_range(zones: Seq<config::ZoneModel>, id: Seq<char>)
    ensures
        config::zone_index(zones, id) matches Some(k) ==> 0 <= k < zones.len(),
    decreases zones.len(),
{
    if zones.len() > 0 {
        lemma_zone_index_range(zones.drop_last(), id);
    }
}

/// New descriptors change neither the number of network devices nor anything
/// else about them, and only devices that had descriptors get new ones.
pub proof fn law_net_fds_change_only_descriptors<D>(
    nets: Seq<config::NetModel<D>>,
    restored: Seq<config::RestoredNetModel>,
    i: int,
)
    requires
        0 <= i < nets.len(),
    ensures
        config::with_fds(nets, restored).len() == nets.len(),
        config::with_fds(nets, restored)[i].id == nets[i].id,
        config::with_fds(nets, restored)[i].device == nets[i].device,
        nets[i].fds is None ==> config::with_fds(nets, restored)[i] == nets[i],
    decreases restored.len(),
{
    if restored.len() > 0 {
        law_net_fds_change_only_descriptors(nets, restored.drop_last(), i);
    }
}

} // verus!
