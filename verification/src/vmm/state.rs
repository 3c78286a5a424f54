//! The monitor.
use crate::migration::progress::MigrationProgress;
use crate::vmm::config::ConfigModel;
use crate::vmm::config::VmConfig;
use crate::vmm::host::Host;
use crate::vmm::ownership::MaybeVmOwnership;
use crate::vmm::version::BuildFeatures;
use crate::vmm::version::VmmVersionInfo;
use vstd::prelude::*;

verus! {

/// What a guest asked for while it was being migrated, and gets afterwards.
#[derive(Clone, Copy, Debug, PartialEq, Eq, Structural)]
pub enum PostMigrationLifecycleEvent {
    VmReboot,
    VmShutdown,
}

/// What a VM is doing.
#[derive(Clone, Copy, Debug, PartialEq, Eq, Structural)]
pub enum VmState {
    Created,
    Running,
    Shutdown,
    Paused,
    BreakPoint,
}

/// The monitor.
pub struct Vmm<H: Host> {
    pub version: VmmVersionInfo,
    pub features: BuildFeatures,
    /// Whether the monitor stays when its guest shuts down.
    pub no_shutdown: bool,
    pub vm: MaybeVmOwnership<H>,
    /// The configuration. What a VM changes in its own, such as a device that
    /// was added to it, is copied to this one by whoever performs the effects.
    pub vm_config: Option<VmConfig<H::Device>>,
    pub console_info: Option<H::Console>,
    /// What the guest asked for while it was being sent.
    pub postponed_lifecycle_event: Option<PostMigrationLifecycleEvent>,
    /// What the guest asked for before it was received.
    pub received_postponed_lifecycle_event: Option<PostMigrationLifecycleEvent>,
    /// The thread that migrates the VM.
    pub migration_thread_handle: Option<H::Worker>,
    /// How the present or last migration went.
    pub progress: Option<MigrationProgress>,
}

/// The mathematical value of a [`Vmm`].
#[verifier::ext_equal]
pub ghost struct VmmModel<H: Host> {
    pub version: VmmVersionInfo,
    pub features: BuildFeatures,
    pub no_shutdown: bool,
    pub vm: MaybeVmOwnership<H>,
    pub vm_config: Option<ConfigModel<H::Device>>,
    pub console_info: Option<H::Console>,
    pub postponed_lifecycle_event: Option<PostMigrationLifecycleEvent>,
    pub received_postponed_lifecycle_event: Option<PostMigrationLifecycleEvent>,
    pub migration_thread_handle: Option<H::Worker>,
    pub progress: Option<MigrationProgress>,
}

/// The value of an optional configuration.
pub open spec fn config_model<D>(config: Option<VmConfig<D>>) -> Option<ConfigModel<D>> {
    match config {
        Some(config) => Some(config@),
        None => None,
    }
}

impl<H: Host> View for Vmm<H> {
    type V = VmmModel<H>;

    open spec fn view(&self) -> VmmModel<H> {
        VmmModel {
            version: self.version,
            features: self.features,
            no_shutdown: self.no_shutdown,
            vm: self.vm,
            vm_config: config_model(self.vm_config),
            console_info: self.console_info,
            postponed_lifecycle_event: self.postponed_lifecycle_event,
            received_postponed_lifecycle_event: self.received_postponed_lifecycle_event,
            migration_thread_handle: self.migration_thread_handle,
            progress: self.progress,
        }
    }
}

impl<H: Host> VmmModel<H> {
    /// Whether landlock is to be applied.
    pub open spec fn landlock_enable(self) -> bool {
        self.vm_config matches Some(config) && config.landlock_enable
    }
}

impl<H: Host> Vmm<H> {
    /// A monitor without a VM.
    pub fn new(version: VmmVersionInfo, features: BuildFeatures, no_shutdown: bool) -> (r: Self)
        ensures
            r@ == (VmmModel::<H> {
                version,
                features,
                no_shutdown,
                vm: MaybeVmOwnership::Absent,
                vm_config: None,
                console_info: None,
                postponed_lifecycle_event: None,
                received_postponed_lifecycle_event: None,
                migration_thread_handle: None,
                progress: None,
            }),
    {
        Vmm {
            version,
            features,
            no_shutdown,
            vm: MaybeVmOwnership::Absent,
            vm_config: None,
            console_info: None,
            postponed_lifecycle_event: None,
            received_postponed_lifecycle_event: None,
            migration_thread_handle: None,
            progress: None,
        }
    }

    /// Whether landlock is to be applied.
    pub fn wants_landlock(&self) -> (r: bool)
        ensures
            r == self@.landlock_enable(),
    {
        match &self.vm_config {
            Some(config) => config.landlock_enable,
            None => false,
        }
    }

    /// Takes note of what a guest asked for while it is being migrated. Only
    /// its first wish counts.
    pub fn postpone_lifecycle_event_during_migration(&mut self, event: PostMigrationLifecycleEvent)
        ensures
            final(self)@ == old(self)@.postpone(event),
    {
        if self.postponed_lifecycle_event.is_none() {
            self.postponed_lifecycle_event = Some(event);
        }
    }

    /// What the guest asked for while it is being migrated.
    pub fn current_postponed_lifecycle_event(&self) -> (r: Option<PostMigrationLifecycleEvent>)
        ensures
            r == self@.postponed_lifecycle_event,
    {
        self.postponed_lifecycle_event
    }

    /// Forgets what the guest asked for.
    pub fn clear_postponed_lifecycle_event(&mut self)
        ensures
            final(self)@ == (VmmModel { postponed_lifecycle_event: None, ..old(self)@ }),
    {
        self.postponed_lifecycle_event = None;
    }
}

impl<H: Host> VmmModel<H> {
    /// The monitor after a wish of the guest; only the first one counts.
    pub open spec fn postpone(self, event: PostMigrationLifecycleEvent) -> VmmModel<H> {
        VmmModel {
            postponed_lifecycle_event: match self.postponed_lifecycle_event {
                Some(first) => Some(first),
                None => Some(event),
            },
            ..self
        }
    }
}

} // verus!
