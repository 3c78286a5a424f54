//! The requests of the monitor's users.
//!
//! Each request is a decision on the present state, and says what is to be
//! done next. A request that concerns a VM is refused while there is none, or
//! while it is being migrated.
use crate::vmm::config;
use crate::vmm::config::Addition;
use crate::vmm::config::ConfigModel;
use crate::vmm::config::DeviceKind;
use crate::vmm::config::NetConfig;
use crate::vmm::config::RestoredNetConfig;
use crate::vmm::config::VmConfig;
use crate::vmm::config::ZoneModel;
use crate::vmm::effect::AfterShutdown;
use crate::vmm::effect::Effect;
use crate::vmm::effect::Pending;
use crate::vmm::effect::Single;
use crate::vmm::effect::Step;
use crate::vmm::error::VmError;
use crate::vmm::host::Host;
use crate::vmm::ownership::MaybeVmOwnership;
use crate::vmm::state::Vmm;
use crate::vmm::state::VmmModel;
use crate::vmm::state::VmState;
use vstd::prelude::*;

verus! {

/// A request that succeeded without an answer.
pub open spec fn ok<H: Host>() -> Step<H> {
    Step::Reply(Ok(None))
}

/// A request that failed.
pub open spec fn fail<H: Host>(e: VmError<H::Error>) -> Step<H> {
    Step::Reply(Err(e))
}

impl<H: Host> VmmModel<H> {
    /// An operation of the VM, if the monitor owns one.
    pub open spec fn on_vm(self, effect: Effect<H>, pending: Pending<H>) -> Step<H> {
        match self.vm {
            MaybeVmOwnership::Vmm(_) => Step::Do(effect, pending),
            MaybeVmOwnership::Migration(_) => fail(VmError::VmMigrating),
            MaybeVmOwnership::Absent => fail(VmError::VmNotRunning),
        }
    }

    pub open spec fn create(self, config: ConfigModel<H::Device>) -> (VmmModel<H>, Step<H>) {
        if self.vm_config is Some {
            (self, fail(VmError::VmAlreadyCreated))
        } else {
            (
                VmmModel { vm_config: Some(config), ..self },
                Step::Do(Effect::CreateConsole, Pending::CreateConsole),
            )
        }
    }

    pub open spec fn boot(self) -> (VmmModel<H>, Step<H>) {
        if self.vm is Migration {
            (self, fail(VmError::VmMigrating))
        } else if self.vm_config is None {
            (self, fail(VmError::VmMissingConfig))
        } else if self.console_info is None {
            (self, Step::Do(Effect::CreateConsole, Pending::BootConsole))
        } else {
            self.boot_with_console()
        }
    }

    /// The rest of a boot once there is a console: a VM is created if there is
    /// none.
    pub open spec fn boot_with_console(self) -> (VmmModel<H>, Step<H>) {
        match self.vm {
            MaybeVmOwnership::Vmm(_) => (self, Step::Do(Effect::BootVm, Pending::BootBoot)),
            MaybeVmOwnership::Migration(_) => (self, fail(VmError::VmMigrating)),
            MaybeVmOwnership::Absent => (
                self,
                Step::Do(Effect::CloneEventFds, Pending::BootEvents),
            ),
        }
    }

    pub open spec fn announce(self, state: VmState) -> Step<H> {
        if self.vm is Vmm && state != VmState::Running {
            fail(VmError::VmNotRunning)
        } else {
            self.on_vm(Effect::AnnounceVm, Pending::Single(Single::Vm))
        }
    }

    pub open spec fn snapshot(self, destination_url: String) -> (VmmModel<H>, Step<H>) {
        (
            VmmModel {
                console_info: if self.vm is Vmm {
                    None
                } else {
                    self.console_info
                },
                ..self
            },
            self.on_vm(Effect::SnapshotVm, Pending::Snapshot(destination_url)),
        )
    }

    pub open spec fn restore(
        self,
        source_url: Option<String>,
        prefault: bool,
        net_fds: Option<Vec<RestoredNetConfig>>,
    ) -> Step<H> {
        if self.vm is Vmm {
            fail(VmError::VmAlreadyCreated)
        } else if self.vm is Migration {
            fail(VmError::VmMigrating)
        } else if self.vm_config is Some {
            fail(VmError::VmAlreadyCreated)
        } else {
            match source_url {
                None => fail(VmError::InvalidRestoreSourceUrl),
                Some(url) => Step::Do(
                    Effect::FetchConfig(url),
                    Pending::RestoreConfig(url, prefault, net_fds),
                ),
            }
        }
    }

    /// A shutdown, and what follows it.
    pub open spec fn shutdown(self, after: AfterShutdown<H::Error>) -> (VmmModel<H>, Step<H>) {
        (
            VmmModel {
                console_info: if self.vm is Vmm {
                    None
                } else {
                    self.console_info
                },
                ..self
            },
            self.on_vm(Effect::ShutdownVm, Pending::Shutdown(after)),
        )
    }

    pub open spec fn delete(self) -> (VmmModel<H>, Step<H>) {
        if self.vm_config is None {
            (self, ok())
        } else {
            match self.vm {
                MaybeVmOwnership::Vmm(_) => self.shutdown(AfterShutdown::Delete),
                MaybeVmOwnership::Migration(_) => (self, fail(VmError::VmMigrating)),
                MaybeVmOwnership::Absent => (VmmModel { vm_config: None, ..self }, ok()),
            }
        }
    }

    pub open spec fn resize(self, ram: Option<u64>, balloon: Option<u64>) -> (
        VmmModel<H>,
        Step<H>,
    ) {
        match self.vm_config {
            None => (self, fail(VmError::VmNotCreated)),
            Some(config) => match self.vm {
                MaybeVmOwnership::Absent => (
                    VmmModel { vm_config: Some(config.resize(ram, balloon)), ..self },
                    ok(),
                ),
                _ => (
                    self,
                    self.on_vm(Effect::ResizeVm(ram, balloon), Pending::Single(Single::Vm)),
                ),
            },
        }
    }

    pub open spec fn resize_disk(self, id: String, size: u64) -> Step<H> {
        if self.vm_config is None {
            fail(VmError::VmNotCreated)
        } else if self.vm is Absent {
            fail(VmError::ResizeDisk)
        } else {
            self.on_vm(Effect::ResizeDisk(id, size), Pending::Single(Single::Vm))
        }
    }

    pub open spec fn resize_zone(self, id: String, ram: u64) -> (VmmModel<H>, Step<H>) {
        match self.vm_config {
            None => (self, fail(VmError::VmNotCreated)),
            Some(config) => match self.vm {
                MaybeVmOwnership::Absent => match config.zones {
                    None => (self, fail(VmError::ResizeZone)),
                    Some(zones) => match config::zone_index(zones, id@) {
                        None => (self, fail(VmError::ResizeZone)),
                        Some(i) => (
                            VmmModel {
                                vm_config: Some(
                                    ConfigModel {
                                        zones: Some(
                                            zones.update(
                                                i,
                                                ZoneModel { size: ram, ..zones[i] },
                                            ),
                                        ),
                                        ..config
                                    },
                                ),
                                ..self
                            },
                            ok(),
                        ),
                    },
                },
                _ => (
                    self,
                    self.on_vm(Effect::ResizeZone(id, ram), Pending::Single(Single::Vm)),
                ),
            },
        }
    }

    /// A new device is checked first, whatever comes then.
    pub open spec fn add(self, addition: Addition<H::Device>) -> Step<H> {
        match self.vm_config {
            None => fail(VmError::VmNotCreated),
            Some(config) => if addition is Vsock && config.vsock is Some {
                fail(VmError::TooManyVsockDevices)
            } else {
                Step::Do(Effect::ValidateAddition, Pending::AddValidate(addition))
            },
        }
    }

    pub open spec fn remove(self, id: String) -> Step<H> {
        if self.vm is Absent {
            if self.vm_config is Some {
                Step::Do(Effect::RemoveFromConfig(id), Pending::RemoveCold(id))
            } else {
                fail(VmError::VmNotCreated)
            }
        } else {
            self.on_vm(Effect::RemoveDevice(id), Pending::Single(Single::Vm))
        }
    }
}

/// What is known of the VM.
pub struct VmInfoResponse<'a, D> {
    pub config: &'a VmConfig<D>,
    pub state: VmState,
    pub memory_actual_size: u64,
    /// Whether the tree of devices is available.
    pub device_tree: bool,
}

impl<H: Host> Vmm<H> {
    fn on_vm(&self, effect: Effect<H>, pending: Pending<H>) -> (r: Step<H>)
        ensures
            r == self@.on_vm(effect, pending),
    {
        match &self.vm {
            MaybeVmOwnership::Vmm(_) => Step::Do(effect, pending),
            MaybeVmOwnership::Migration(_) => Step::Reply(Err(VmError::VmMigrating)),
            MaybeVmOwnership::Absent => Step::Reply(Err(VmError::VmNotRunning)),
        }
    }

    /// Stores a configuration. The VM will be created when being asked to boot
    /// it.
    pub fn vm_create(&mut self, config: VmConfig<H::Device>) -> (r: Step<H>)
        ensures
            (final(self)@, r) == old(self)@.create(config@),
    {
        if self.vm_config.is_some() {
            return Step::Reply(Err(VmError::VmAlreadyCreated));
        }
        self.vm_config = Some(config);
        Step::Do(Effect::CreateConsole, Pending::CreateConsole)
    }

    /// Boots the VM, which is created if there is none.
    pub fn vm_boot(&mut self) -> (r: Step<H>)
        ensures
            (final(self)@, r) == old(self)@.boot(),
    {
        if let MaybeVmOwnership::Migration(_) = &self.vm {
            return Step::Reply(Err(VmError::VmMigrating));
        }
        if self.vm_config.is_none() {
            return Step::Reply(Err(VmError::VmMissingConfig));
        }
        if self.console_info.is_none() {
            return Step::Do(Effect::CreateConsole, Pending::BootConsole);
        }
        self.boot_with_console()
    }

    pub(crate) fn boot_with_console(&mut self) -> (r: Step<H>)
        ensures
            (final(self)@, r) == old(self)@.boot_with_console(),
    {
        match &self.vm {
            MaybeVmOwnership::Vmm(_) => Step::Do(Effect::BootVm, Pending::BootBoot),
            MaybeVmOwnership::Migration(_) => Step::Reply(Err(VmError::VmMigrating)),
            MaybeVmOwnership::Absent => Step::Do(Effect::CloneEventFds, Pending::BootEvents),
        }
    }

    pub fn vm_pause(&self) -> (r: Step<H>)
        ensures
            r == self@.on_vm(Effect::PauseVm, Pending::Single(Single::Pause)),
    {
        self.on_vm(Effect::PauseVm, Pending::Single(Single::Pause))
    }

    pub fn vm_resume(&self) -> (r: Step<H>)
        ensures
            r == self@.on_vm(Effect::ResumeVm, Pending::Single(Single::Resume)),
    {
        self.on_vm(Effect::ResumeVm, Pending::Single(Single::Resume))
    }

    /// Advertises the location of the VM, which is in the given state if the
    /// monitor owns one.
    pub fn vm_post_migration_announce(&self, state: VmState) -> (r: Step<H>)
        ensures
            r == self@.announce(state),
    {
        if let MaybeVmOwnership::Vmm(_) = &self.vm {
            if state != VmState::Running {
                return Step::Reply(Err(VmError::VmNotRunning));
            }
        }
        self.on_vm(Effect::AnnounceVm, Pending::Single(Single::Vm))
    }

    /// Takes a snapshot. The console is given up, so that its descriptors are
    /// not used again.
    pub fn vm_snapshot(&mut self, destination_url: String) -> (r: Step<H>)
        ensures
            (final(self)@, r) == old(self)@.snapshot(destination_url),
    {
        if let MaybeVmOwnership::Vmm(_) = &self.vm {
            self.console_info = None;
        }
        self.on_vm(Effect::SnapshotVm, Pending::Snapshot(destination_url))
    }

    /// Restores a VM from a snapshot. `source_url` is where it is, if that is
    /// valid text.
    pub fn vm_restore(
        &self,
        source_url: Option<String>,
        prefault: bool,
        net_fds: Option<Vec<RestoredNetConfig>>,
    ) -> (r: Step<H>)
        ensures
            r == self@.restore(source_url, prefault, net_fds),
    {
        match &self.vm {
            MaybeVmOwnership::Vmm(_) => {
                return Step::Reply(Err(VmError::VmAlreadyCreated));
            },
            MaybeVmOwnership::Migration(_) => {
                return Step::Reply(Err(VmError::VmMigrating));
            },
            MaybeVmOwnership::Absent => {},
        }
        if self.vm_config.is_some() {
            return Step::Reply(Err(VmError::VmAlreadyCreated));
        }
        match source_url {
            None => Step::Reply(Err(VmError::InvalidRestoreSourceUrl)),
            Some(url) => Step::Do(
                Effect::FetchConfig(url.clone()),
                Pending::RestoreConfig(url, prefault, net_fds),
            ),
        }
    }

    pub fn vm_coredump(&self, destination_url: String) -> (r: Step<H>)
        ensures
            r == self@.on_vm(
                Effect::CoredumpVm(destination_url),
                Pending::Single(Single::Coredump),
            ),
    {
        self.on_vm(Effect::CoredumpVm(destination_url), Pending::Single(Single::Coredump))
    }

    pub(crate) fn shutdown_then(&mut self, after: AfterShutdown<H::Error>) -> (r: Step<H>)
        ensures
            (final(self)@, r) == old(self)@.shutdown(after),
    {
        if let MaybeVmOwnership::Vmm(_) = &self.vm {
            self.console_info = None;
        }
        self.on_vm(Effect::ShutdownVm, Pending::Shutdown(after))
    }

    /// Shuts the VM down. The console is given up, so that its descriptors are
    /// not used again.
    pub fn vm_shutdown(&mut self) -> (r: Step<H>)
        ensures
            (final(self)@, r) == old(self)@.shutdown(AfterShutdown::Reply),
    {
        self.shutdown_then(AfterShutdown::Reply)
    }

    pub fn vm_reboot(&self) -> (r: Step<H>)
        ensures
            r == self@.on_vm(Effect::ShutdownVm, Pending::RebootShutdown),
    {
        self.on_vm(Effect::ShutdownVm, Pending::RebootShutdown)
    }

    /// What is known of the VM, whose memory is configured to add up to
    /// `total_size`. The VM's own state and the size of its balloon are asked
    /// for where the monitor owns it.
    pub fn vm_info(&self, vm_state: VmState, balloon_size: u64, total_size: u64) -> (r: Result<
        VmInfoResponse<'_, H::Device>,
        VmError<H::Error>,
    >)
        requires
            self@.vm is Vmm ==> balloon_size <= total_size,
        ensures
            match self@.vm_config {
                None => r == Err::<VmInfoResponse<'_, H::Device>, VmError<H::Error>>(
                    VmError::VmNotCreated,
                ),
                Some(config) => {
                    &&& r is Ok
                    &&& r->Ok_0.config@ == config
                    &&& r->Ok_0.state == match self@.vm {
                        MaybeVmOwnership::Vmm(_) => vm_state,
                        MaybeVmOwnership::Migration(_) => VmState::Running,
                        MaybeVmOwnership::Absent => VmState::Created,
                    }
                    &&& r->Ok_0.memory_actual_size == if self@.vm is Vmm {
                        total_size - balloon_size
                    } else {
                        total_size as int
                    }
                    &&& r->Ok_0.device_tree == self@.vm is Vmm
                },
            },
    {
        match &self.vm_config {
            None => Err(VmError::VmNotCreated),
            Some(config) => Ok(
                match &self.vm {
                    MaybeVmOwnership::Vmm(_) => VmInfoResponse {
                        config,
                        state: vm_state,
                        memory_actual_size: total_size - balloon_size,
                        device_tree: true,
                    },
                    MaybeVmOwnership::Migration(_) => VmInfoResponse {
                        config,
                        state: VmState::Running,
                        memory_actual_size: total_size,
                        device_tree: false,
                    },
                    MaybeVmOwnership::Absent => VmInfoResponse {
                        config,
                        state: VmState::Created,
                        memory_actual_size: total_size,
                        device_tree: false,
                    },
                },
            ),
        }
    }

    /// Deletes the configuration. If a VM is booted, it is shut down first.
    pub fn vm_delete(&mut self) -> (r: Step<H>)
        ensures
            (final(self)@, r) == old(self)@.delete(),
    {
        if self.vm_config.is_none() {
            return Step::Reply(Ok(None));
        }
        match &self.vm {
            MaybeVmOwnership::Vmm(_) => self.shutdown_then(AfterShutdown::Delete),
            MaybeVmOwnership::Migration(_) => Step::Reply(Err(VmError::VmMigrating)),
            MaybeVmOwnership::Absent => {
                self.vm_config = None;
                Step::Reply(Ok(None))
            },
        }
    }

    /// Deletes the VM before the monitor ends.
    pub fn vmm_shutdown(&mut self) -> (r: Step<H>)
        ensures
            (final(self)@, r) == old(self)@.delete(),
    {
        self.vm_delete()
    }

    /// Resizes the VM, or its configuration if it is not booted. The number of
    /// processors cannot be changed.
    pub fn vm_resize(
        &mut self,
        desired_vcpus: Option<u32>,
        desired_ram: Option<u64>,
        desired_balloon: Option<u64>,
    ) -> (r: Step<H>)
        requires
            old(self)@.vm_config is Some ==> desired_vcpus is None,
        ensures
            (final(self)@, r) == old(self)@.resize(desired_ram, desired_balloon),
    {
        match &mut self.vm_config {
            None => {
                return Step::Reply(Err(VmError::VmNotCreated));
            },
            Some(config) => {
                if let MaybeVmOwnership::Absent = &self.vm {
                    config.resize(desired_ram, desired_balloon);
                    return Step::Reply(Ok(None));
                }
            },
        }
        self.on_vm(Effect::ResizeVm(desired_ram, desired_balloon), Pending::Single(Single::Vm))
    }

    pub fn vm_resize_disk(&self, id: String, desired_size: u64) -> (r: Step<H>)
        ensures
            r == self@.resize_disk(id, desired_size),
    {
        if self.vm_config.is_none() {
            return Step::Reply(Err(VmError::VmNotCreated));
        }
        if let MaybeVmOwnership::Absent = &self.vm {
            return Step::Reply(Err(VmError::ResizeDisk));
        }
        self.on_vm(Effect::ResizeDisk(id, desired_size), Pending::Single(Single::Vm))
    }

    /// Resizes a memory zone of the VM, or of its configuration if it is not
    /// booted.
    pub fn vm_resize_zone(&mut self, id: String, desired_ram: u64) -> (r: Step<H>)
        ensures
            (final(self)@, r) == old(self)@.resize_zone(id, desired_ram),
    {
        match &mut self.vm_config {
            None => {
                return Step::Reply(Err(VmError::VmNotCreated));
            },
            Some(config) => {
                if let MaybeVmOwnership::Absent = &self.vm {
                    if config.resize_zone(&id, desired_ram) {
                        return Step::Reply(Ok(None));
                    } else {
                        return Step::Reply(Err(VmError::ResizeZone));
                    }
                }
            },
        }
        self.on_vm(Effect::ResizeZone(id, desired_ram), Pending::Single(Single::Vm))
    }

    fn vm_add(&self, addition: Addition<H::Device>) -> (r: Step<H>)
        ensures
            r == self@.add(addition),
    {
        match &self.vm_config {
            None => Step::Reply(Err(VmError::VmNotCreated)),
            Some(config) => {
                if let Addition::Vsock(_) = &addition {
                    if config.vsock.is_some() {
                        return Step::Reply(Err(VmError::TooManyVsockDevices));
                    }
                }
                Step::Do(Effect::ValidateAddition, Pending::AddValidate(addition))
            },
        }
    }

    pub fn vm_add_device(&self, device_cfg: H::Device) -> (r: Step<H>)
        ensures
            r == self@.add(Addition::Listed(DeviceKind::Device, device_cfg)),
    {
        self.vm_add(Addition::Listed(DeviceKind::Device, device_cfg))
    }

    pub fn vm_add_user_device(&self, device_cfg: H::Device) -> (r: Step<H>)
        ensures
            r == self@.add(Addition::Listed(DeviceKind::UserDevice, device_cfg)),
    {
        self.vm_add(Addition::Listed(DeviceKind::UserDevice, device_cfg))
    }

    pub fn vm_add_disk(&self, disk_cfg: H::Device) -> (r: Step<H>)
        ensures
            r == self@.add(Addition::Listed(DeviceKind::Disk, disk_cfg)),
    {
        self.vm_add(Addition::Listed(DeviceKind::Disk, disk_cfg))
    }

    pub fn vm_add_fs(&self, fs_cfg: H::Device) -> (r: Step<H>)
        ensures
            r == self@.add(Addition::Listed(DeviceKind::Fs, fs_cfg)),
    {
        self.vm_add(Addition::Listed(DeviceKind::Fs, fs_cfg))
    }

    pub fn vm_add_pmem(&self, pmem_cfg: H::Device) -> (r: Step<H>)
        ensures
            r == self@.add(Addition::Listed(DeviceKind::Pmem, pmem_cfg)),
    {
        self.vm_add(Addition::Listed(DeviceKind::Pmem, pmem_cfg))
    }

    pub fn vm_add_net(&self, net_cfg: NetConfig<H::Device>) -> (r: Step<H>)
        ensures
            r == self@.add(Addition::Net(net_cfg)),
    {
        self.vm_add(Addition::Net(net_cfg))
    }

    pub fn vm_add_vdpa(&self, vdpa_cfg: H::Device) -> (r: Step<H>)
        ensures
            r == self@.add(Addition::Listed(DeviceKind::Vdpa, vdpa_cfg)),
    {
        self.vm_add(Addition::Listed(DeviceKind::Vdpa, vdpa_cfg))
    }

    /// There can be only one vsock device.
    pub fn vm_add_vsock(&self, vsock_cfg: H::Device) -> (r: Step<H>)
        ensures
            r == self@.add(Addition::Vsock(vsock_cfg)),
    {
        self.vm_add(Addition::Vsock(vsock_cfg))
    }

    pub fn vm_remove_device(&self, id: String) -> (r: Step<H>)
        ensures
            r == self@.remove(id),
    {
        if let MaybeVmOwnership::Absent = &self.vm {
            if self.vm_config.is_some() {
                return Step::Do(Effect::RemoveFromConfig(id.clone()), Pending::RemoveCold(id));
            } else {
                return Step::Reply(Err(VmError::VmNotCreated));
            }
        }
        self.on_vm(Effect::RemoveDevice(id), Pending::Single(Single::Vm))
    }

    pub fn vm_counters(&self) -> (r: Step<H>)
        ensures
            r == self@.on_vm(Effect::ReadCounters, Pending::Info),
    {
        self.on_vm(Effect::ReadCounters, Pending::Info)
    }

    pub fn vm_power_button(&self) -> (r: Step<H>)
        ensures
            r == self@.on_vm(Effect::PressPowerButton, Pending::Single(Single::Vm)),
    {
        self.on_vm(Effect::PressPowerButton, Pending::Single(Single::Vm))
    }

    pub fn vm_nmi(&self) -> (r: Step<H>)
        ensures
            r == self@.on_vm(Effect::InjectNmi, Pending::Single(Single::Vm)),
    {
        self.on_vm(Effect::InjectNmi, Pending::Single(Single::Vm))
    }
}

} // verus!
