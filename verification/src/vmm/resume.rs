//! How a request goes on once what it asked for has an outcome.
use crate::migration::error::Failure;
use crate::migration::error::MigratableError;
use crate::migration::error::Reason;
use crate::vmm::config;
use crate::vmm::config::Addition;
use crate::vmm::config::ConfigModel;
use crate::vmm::config::RestoredNetConfig;
use crate::vmm::config::VmConfig;
use crate::vmm::effect::AfterShutdown;
use crate::vmm::effect::Effect;
use crate::vmm::effect::Outcome;
use crate::vmm::effect::Pending;
use crate::vmm::effect::Single;
use crate::vmm::effect::Step;
use crate::vmm::error::VmError;
use crate::vmm::host::Host;
use crate::vmm::ownership::MaybeVmOwnership;
use crate::vmm::requests;
use crate::vmm::state::Vmm;
use crate::vmm::state::VmmModel;
use vstd::prelude::*;

verus! {

/// The error for a failed single effect.
pub open spec fn single_error<E>(single: Single, e: E) -> VmError<E> {
    match single {
        Single::Pause => VmError::Pause(e),
        Single::Resume => VmError::Resume(e),
        Single::Coredump => VmError::Coredump(e),
        Single::Vm => VmError::Vm(e),
    }
}

impl<H: Host> VmmModel<H> {
    /// A failed restore: what was created for it is deleted before its error
    /// is reported.
    pub open spec fn fail_restore(self, e: VmError<H::Error>) -> (VmmModel<H>, Step<H>) {
        if self.vm_config is None {
            (self, requests::fail(e))
        } else {
            match self.vm {
                MaybeVmOwnership::Vmm(_) => self.shutdown(AfterShutdown::FailedRestore(e)),
                MaybeVmOwnership::Migration(_) => (self, requests::fail(VmError::VmMigrating)),
                MaybeVmOwnership::Absent => (
                    VmmModel { vm_config: None, ..self },
                    requests::fail(e),
                ),
            }
        }
    }

    /// The configuration of a restore, with new descriptors of its network
    /// devices, becomes the present one.
    pub open spec fn adopt_restored(
        self,
        config: ConfigModel<H::Device>,
        url: String,
        prefault: bool,
        net_fds: Option<Vec<RestoredNetConfig>>,
    ) -> (VmmModel<H>, Step<H>) {
        (
            VmmModel {
                vm_config: Some(
                    match net_fds {
                        Some(nets) => config.with_net_fds(config::restored_models(nets@)),
                        None => config,
                    },
                ),
                ..self
            },
            Step::Do(Effect::CreateConsole, Pending::RestoreConsole(url, prefault)),
        )
    }

    /// The error of a pending request whose effect failed. The requests that
    /// clean up after themselves are not among them.
    pub open spec fn failure(pending: Pending<H>, e: H::Error) -> VmError<H::Error> {
        match pending {
            Pending::CreateConsole | Pending::BootConsole | Pending::RebootConsole
            | Pending::RestoreConsole(_, _) => VmError::CreateConsoleDevices(e),
            Pending::CreateLandlock | Pending::RestoreLandlock => VmError::ApplyLandlock(e),
            Pending::BootEvents | Pending::RebootEvents | Pending::RestoreEvents(_, _) =>
                VmError::EventFdClone(e),
            Pending::Single(single) => single_error(single, e),
            Pending::Snapshot(_) => VmError::Snapshot(e),
            Pending::SnapshotSend => VmError::SnapshotSend(e),
            Pending::AddValidate(_) | Pending::RestoreValidate(_, _, _, _) =>
                VmError::ConfigValidation(e),
            Pending::Serialize => VmError::SerializeJson(e),
            Pending::RestoreConfig(_, _, _) | Pending::RestoreSnapshot(_, _, _, _) =>
                VmError::Restore(MigratableError::Outside(e)),
            Pending::RestoreCpuid(_, _, _, _) => VmError::Restore(
                MigratableError::MigrateReceive(Failure::Outside(e)),
            ),
            _ => VmError::Vm(e),
        }
    }

    /// Whether a pending request is a restore that has left something behind.
    pub open spec fn is_restoring(pending: Pending<H>) -> bool {
        pending is RestoreSnapshot || pending is RestoreCpuid || pending is RestoreConsole
            || pending is RestoreEvents || pending is RestoreCreate || pending is RestoreLandlock
            || pending is RestoreVm
    }

    /// A pending request whose effect failed.
    pub open spec fn resume_failed(self, pending: Pending<H>, e: H::Error) -> (
        VmmModel<H>,
        Step<H>,
    ) {
        if VmmModel::is_restoring(pending) {
            self.fail_restore(VmmModel::failure(pending, e))
        } else if pending is Shutdown {
            (
                VmmModel { vm: MaybeVmOwnership::Absent, ..self },
                requests::fail(VmError::Vm(e)),
            )
        } else if pending is RebootDrain {
            (self, Step::Do(Effect::CreateConsole, Pending::RebootConsole))
        } else {
            (self, requests::fail(VmmModel::failure(pending, e)))
        }
    }

    /// A restore whose configuration was checked, or whose snapshot was
    /// fetched. Any other request is complete.
    pub open spec fn resume_checked(self, pending: Pending<H>) -> (VmmModel<H>, Step<H>) {
        match pending {
            Pending::RestoreValidate(url, prefault, net_fds, config) => if self.vm is Migration {
                self.fail_restore(VmError::VmMigrating)
            } else {
                (
                    self,
                    Step::Do(
                        Effect::FetchSnapshot(url),
                        Pending::RestoreSnapshot(url, prefault, net_fds, config),
                    ),
                )
            },
            Pending::RestoreSnapshot(url, prefault, net_fds, config) =>
                if !self.features.checks_cpuid() {
                    self.adopt_restored(config@, url, prefault, net_fds)
                } else if self.features.tdx && config@.tdx {
                    self.fail_restore(
                        VmError::Restore(
                            MigratableError::MigrateReceive(Failure::Reason(Reason::TdxEnabled)),
                        ),
                    )
                } else {
                    (
                        self,
                        Step::Do(
                            Effect::CheckCpuid(config@.cpus.amx),
                            Pending::RestoreCpuid(url, prefault, net_fds, config),
                        ),
                    )
                },
            Pending::RestoreCpuid(url, prefault, net_fds, config) => self.adopt_restored(
                config@,
                url,
                prefault,
                net_fds,
            ),
            _ => (self, requests::ok()),
        }
    }

    /// A pending request whose effect was done.
    pub open spec fn resume_done(self, pending: Pending<H>) -> (VmmModel<H>, Step<H>) {
        match pending {
            Pending::BootEvents => (self, Step::Do(Effect::CreateVm, Pending::BootCreate)),
            Pending::Snapshot(url) => (
                self,
                Step::Do(Effect::SendSnapshot(url), Pending::SnapshotSend),
            ),
            Pending::Shutdown(after) => match after {
                AfterShutdown::Reply => (
                    VmmModel { vm: MaybeVmOwnership::Absent, ..self },
                    requests::ok(),
                ),
                AfterShutdown::Delete => (
                    VmmModel { vm: MaybeVmOwnership::Absent, vm_config: None, ..self },
                    requests::ok(),
                ),
                AfterShutdown::FailedRestore(e) => (
                    VmmModel { vm: MaybeVmOwnership::Absent, vm_config: None, ..self },
                    requests::fail(e),
                ),
            },
            Pending::RebootShutdown => (
                VmmModel { vm: MaybeVmOwnership::Absent, console_info: None, ..self },
                Step::Do(Effect::CloneEventFds, Pending::RebootEvents),
            ),
            Pending::RebootEvents => (
                self,
                Step::Do(Effect::DrainResetEvent, Pending::RebootDrain),
            ),
            Pending::RebootDrain => (
                self,
                Step::Do(Effect::CreateConsole, Pending::RebootConsole),
            ),
            Pending::Info => (self, Step::Do(Effect::SerializeInfo, Pending::Serialize)),
            Pending::AddValidate(addition) => self.resume_validated(addition),
            Pending::RestoreEvents(url, prefault) => (
                self,
                Step::Do(Effect::CreateRestoredVm(url, prefault), Pending::RestoreCreate),
            ),
            Pending::RestoreLandlock => (
                self,
                Step::Do(Effect::RestoreVm, Pending::RestoreVm),
            ),
            _ => self.resume_checked(pending),
        }
    }

    /// A pending request whose console was created.
    pub open spec fn resume_console(self, pending: Pending<H>, console: H::Console) -> (
        VmmModel<H>,
        Step<H>,
    ) {
        let m = VmmModel { console_info: Some(console), ..self };
        match pending {
            Pending::BootConsole => m.boot_with_console(),
            Pending::RebootConsole => (m, Step::Do(Effect::CreateVm, Pending::RebootCreate)),
            Pending::RestoreConsole(url, prefault) => (
                m,
                Step::Do(Effect::CloneEventFds, Pending::RestoreEvents(url, prefault)),
            ),
            _ => if m.landlock_enable() {
                (m, Step::Do(Effect::ApplyLandlock, Pending::CreateLandlock))
            } else {
                (m, requests::ok())
            },
        }
    }

    /// A pending request that got a VM.
    pub open spec fn resume_vm(self, pending: Pending<H>, vm: H::Vm) -> (VmmModel<H>, Step<H>) {
        let m = VmmModel { vm: MaybeVmOwnership::Vmm(vm), ..self };
        match pending {
            Pending::BootCreate => (m, Step::Do(Effect::BootVm, Pending::BootBoot)),
            Pending::RebootCreate => (
                self,
                Step::Do(Effect::BootNewVm(vm), Pending::RebootBoot),
            ),
            Pending::RestoreCreate => if m.landlock_enable() {
                (m, Step::Do(Effect::ApplyLandlock, Pending::RestoreLandlock))
            } else {
                (m, Step::Do(Effect::RestoreVm, Pending::RestoreVm))
            },
            _ => (m, requests::ok()),
        }
    }

    /// A valid addition goes to the VM if there is one, and to the
    /// configuration if not.
    pub open spec fn resume_validated(self, addition: Addition<H::Device>) -> (
        VmmModel<H>,
        Step<H>,
    ) {
        match self.vm {
            MaybeVmOwnership::Vmm(_) => (
                self,
                Step::Do(Effect::HotAdd(addition), Pending::Info),
            ),
            MaybeVmOwnership::Migration(_) => (self, requests::fail(VmError::VmMigrating)),
            MaybeVmOwnership::Absent => match self.vm_config {
                Some(config) => (
                    VmmModel { vm_config: Some(config.add(addition@)), ..self },
                    requests::ok(),
                ),
                None => (self, requests::fail(VmError::VmNotCreated)),
            },
        }
    }

    /// A restore that got its configuration.
    pub open spec fn resume_config(self, pending: Pending<H>, config: VmConfig<H::Device>) -> Step<
        H,
    > {
        match pending {
            Pending::RestoreConfig(url, prefault, net_fds) => Step::Do(
                Effect::ValidateRestore,
                Pending::RestoreValidate(url, prefault, net_fds, config),
            ),
            _ => requests::ok(),
        }
    }

    /// How a pending request goes on.
    pub open spec fn resume(self, pending: Pending<H>, outcome: Outcome<H>) -> (
        VmmModel<H>,
        Step<H>,
    ) {
        match outcome {
            Outcome::Failed(e) => self.resume_failed(pending, e),
            Outcome::Done => self.resume_done(pending),
            Outcome::Console(console) => self.resume_console(pending, console),
            Outcome::Vm(vm) => self.resume_vm(pending, vm),
            Outcome::Config(config) => (self, self.resume_config(pending, config)),
            Outcome::Found(found) => match pending {
                Pending::RemoveCold(id) if !found => (
                    self,
                    requests::fail(VmError::NoDeviceToRemove(id)),
                ),
                _ => (self, requests::ok()),
            },
            Outcome::Bytes(b) => (self, Step::Reply(Ok(Some(b)))),
        }
    }
}

fn failure<H: Host>(pending: &Pending<H>, e: H::Error) -> (r: VmError<H::Error>)
    ensures
        r == VmmModel::failure(*pending, e),
{
    match pending {
        Pending::CreateConsole => VmError::CreateConsoleDevices(e),
        Pending::BootConsole => VmError::CreateConsoleDevices(e),
        Pending::RebootConsole => VmError::CreateConsoleDevices(e),
        Pending::RestoreConsole(_, _) => VmError::CreateConsoleDevices(e),
        Pending::CreateLandlock => VmError::ApplyLandlock(e),
        Pending::RestoreLandlock => VmError::ApplyLandlock(e),
        Pending::BootEvents => VmError::EventFdClone(e),
        Pending::RebootEvents => VmError::EventFdClone(e),
        Pending::RestoreEvents(_, _) => VmError::EventFdClone(e),
        Pending::Single(single) => match single {
            Single::Pause => VmError::Pause(e),
            Single::Resume => VmError::Resume(e),
            Single::Coredump => VmError::Coredump(e),
            Single::Vm => VmError::Vm(e),
        },
        Pending::Snapshot(_) => VmError::Snapshot(e),
        Pending::SnapshotSend => VmError::SnapshotSend(e),
        Pending::AddValidate(_) => VmError::ConfigValidation(e),
        Pending::RestoreValidate(_, _, _, _) => VmError::ConfigValidation(e),
        Pending::Serialize => VmError::SerializeJson(e),
        Pending::RestoreConfig(_, _, _) => VmError::Restore(MigratableError::Outside(e)),
        Pending::RestoreSnapshot(_, _, _, _) => VmError::Restore(MigratableError::Outside(e)),
        Pending::RestoreCpuid(_, _, _, _) => VmError::Restore(
            MigratableError::MigrateReceive(Failure::Outside(e)),
        ),
        _ => VmError::Vm(e),
    }
}

fn is_restoring<H: Host>(pending: &Pending<H>) -> (r: bool)
    ensures
        r == VmmModel::is_restoring(*pending),
{
    match pending {
        Pending::RestoreSnapshot(_, _, _, _) => true,
        Pending::RestoreCpuid(_, _, _, _) => true,
        Pending::RestoreConsole(_, _) => true,
        Pending::RestoreEvents(_, _) => true,
        Pending::RestoreCreate => true,
        Pending::RestoreLandlock => true,
        Pending::RestoreVm => true,
        _ => false,
    }
}

impl<H: Host> Vmm<H> {
    fn fail_restore(&mut self, e: VmError<H::Error>) -> (r: Step<H>)
        ensures
            (final(self)@, r) == old(self)@.fail_restore(e),
    {
        if self.vm_config.is_none() {
            return Step::Reply(Err(e));
        }
        match &self.vm {
            MaybeVmOwnership::Vmm(_) => self.shutdown_then(AfterShutdown::FailedRestore(e)),
            MaybeVmOwnership::Migration(_) => Step::Reply(Err(VmError::VmMigrating)),
            MaybeVmOwnership::Absent => {
                self.vm_config = None;
                Step::Reply(Err(e))
            },
        }
    }

    fn adopt_restored(
        &mut self,
        config: VmConfig<H::Device>,
        url: String,
        prefault: bool,
        net_fds: Option<Vec<RestoredNetConfig>>,
    ) -> (r: Step<H>)
        ensures
            (final(self)@, r) == old(self)@.adopt_restored(config@, url, prefault, net_fds),
    {
        let mut restored: VmConfig<H::Device> = config;
        if let Some(nets) = net_fds {
            restored.restore_net_fds(nets.as_slice());
        }
        self.vm_config = Some(restored);
        Step::Do(Effect::CreateConsole, Pending::RestoreConsole(url, prefault))
    }

    fn resume_failed(&mut self, pending: Pending<H>, e: H::Error) -> (r: Step<H>)
        ensures
            (final(self)@, r) == old(self)@.resume_failed(pending, e),
    {
        if is_restoring(&pending) {
            let e = failure(&pending, e);
            return self.fail_restore(e);
        }
        match &pending {
            Pending::Shutdown(_) => {
                self.vm = MaybeVmOwnership::Absent;
                Step::Reply(Err(VmError::Vm(e)))
            },
            Pending::RebootDrain => Step::Do(Effect::CreateConsole, Pending::RebootConsole),
            _ => Step::Reply(Err(failure(&pending, e))),
        }
    }

    fn resume_checked(&mut self, pending: Pending<H>) -> (r: Step<H>)
        ensures
            (final(self)@, r) == old(self)@.resume_checked(pending),
    {
        match pending {
            Pending::RestoreValidate(url, prefault, net_fds, config) => {
                if let MaybeVmOwnership::Migration(_) = &self.vm {
                    return self.fail_restore(VmError::VmMigrating);
                }
                Step::Do(
                    Effect::FetchSnapshot(url.clone()),
                    Pending::RestoreSnapshot(url, prefault, net_fds, config),
                )
            },
            Pending::RestoreSnapshot(url, prefault, net_fds, config) => {
                if !self.features.compares_cpuid() {
                    return self.adopt_restored(config, url, prefault, net_fds);
                }
                if self.features.tdx && config.tdx {
                    return self.fail_restore(
                        VmError::Restore(
                            MigratableError::MigrateReceive(Failure::Reason(Reason::TdxEnabled)),
                        ),
                    );
                }
                Step::Do(
                    Effect::CheckCpuid(config.cpus.amx),
                    Pending::RestoreCpuid(url, prefault, net_fds, config),
                )
            },
            Pending::RestoreCpuid(url, prefault, net_fds, config) => self.adopt_restored(
                config,
                url,
                prefault,
                net_fds,
            ),
            _ => Step::Reply(Ok(None)),
        }
    }

    fn resume_done(&mut self, pending: Pending<H>) -> (r: Step<H>)
        ensures
            (final(self)@, r) == old(self)@.resume_done(pending),
    {
        match pending {
            Pending::BootEvents => Step::Do(Effect::CreateVm, Pending::BootCreate),
            Pending::Snapshot(url) => Step::Do(Effect::SendSnapshot(url), Pending::SnapshotSend),
            Pending::Shutdown(after) => {
                self.vm = MaybeVmOwnership::Absent;
                match after {
                    AfterShutdown::Reply => Step::Reply(Ok(None)),
                    AfterShutdown::Delete => {
                        self.vm_config = None;
                        Step::Reply(Ok(None))
                    },
                    AfterShutdown::FailedRestore(e) => {
                        self.vm_config = None;
                        Step::Reply(Err(e))
                    },
                }
            },
            Pending::RebootShutdown => {
                self.vm = MaybeVmOwnership::Absent;
                self.console_info = None;
                Step::Do(Effect::CloneEventFds, Pending::RebootEvents)
            },
            Pending::RebootEvents => Step::Do(Effect::DrainResetEvent, Pending::RebootDrain),
            Pending::RebootDrain => Step::Do(Effect::CreateConsole, Pending::RebootConsole),
            Pending::Info => Step::Do(Effect::SerializeInfo, Pending::Serialize),
            Pending::AddValidate(addition) => self.resume_validated(addition),
            Pending::RestoreEvents(url, prefault) => Step::Do(
                Effect::CreateRestoredVm(url, prefault),
                Pending::RestoreCreate,
            ),
            Pending::RestoreLandlock => Step::Do(Effect::RestoreVm, Pending::RestoreVm),
            pending => self.resume_checked(pending),
        }
    }

    fn resume_console(&mut self, pending: Pending<H>, console: H::Console) -> (r: Step<H>)
        ensures
            (final(self)@, r) == old(self)@.resume_console(pending, console),
    {
        self.console_info = Some(console);
        match pending {
            Pending::BootConsole => self.boot_with_console(),
            Pending::RebootConsole => Step::Do(Effect::CreateVm, Pending::RebootCreate),
            Pending::RestoreConsole(url, prefault) => Step::Do(
                Effect::CloneEventFds,
                Pending::RestoreEvents(url, prefault),
            ),
            _ => if self.wants_landlock() {
                Step::Do(Effect::ApplyLandlock, Pending::CreateLandlock)
            } else {
                Step::Reply(Ok(None))
            },
        }
    }

    fn resume_vm(&mut self, pending: Pending<H>, vm: H::Vm) -> (r: Step<H>)
        ensures
            (final(self)@, r) == old(self)@.resume_vm(pending, vm),
    {
        match pending {
            Pending::BootCreate => {
                self.vm = MaybeVmOwnership::Vmm(vm);
                Step::Do(Effect::BootVm, Pending::BootBoot)
            },
            Pending::RebootCreate => Step::Do(Effect::BootNewVm(vm), Pending::RebootBoot),
            Pending::RestoreCreate => {
                self.vm = MaybeVmOwnership::Vmm(vm);
                if self.wants_landlock() {
                    Step::Do(Effect::ApplyLandlock, Pending::RestoreLandlock)
                } else {
                    Step::Do(Effect::RestoreVm, Pending::RestoreVm)
                }
            },
            _ => {
                self.vm = MaybeVmOwnership::Vmm(vm);
                Step::Reply(Ok(None))
            },
        }
    }

    fn resume_validated(&mut self, addition: Addition<H::Device>) -> (r: Step<H>)
        ensures
            (final(self)@, r) == old(self)@.resume_validated(addition),
    {
        match &self.vm {
            MaybeVmOwnership::Vmm(_) => Step::Do(Effect::HotAdd(addition), Pending::Info),
            MaybeVmOwnership::Migration(_) => Step::Reply(Err(VmError::VmMigrating)),
            MaybeVmOwnership::Absent => match &mut self.vm_config {
                Some(config) => {
                    config.add(addition);
                    Step::Reply(Ok(None))
                },
                None => Step::Reply(Err(VmError::VmNotCreated)),
            },
        }
    }

    fn resume_config(&self, pending: Pending<H>, config: VmConfig<H::Device>) -> (r: Step<H>)
        ensures
            r == self@.resume_config(pending, config),
    {
        match pending {
            Pending::RestoreConfig(url, prefault, net_fds) => Step::Do(
                Effect::ValidateRestore,
                Pending::RestoreValidate(url, prefault, net_fds, config),
            ),
            _ => Step::Reply(Ok(None)),
        }
    }

    /// Goes on with a request.
    pub fn resume(&mut self, pending: Pending<H>, outcome: Outcome<H>) -> (r: Step<H>)
        requires
            pending.accepts(outcome),
        ensures
            (final(self)@, r) == old(self)@.resume(pending, outcome),
    {
        match outcome {
            Outcome::Failed(e) => self.resume_failed(pending, e),
            Outcome::Done => self.resume_done(pending),
            Outcome::Console(console) => self.resume_console(pending, console),
            Outcome::Vm(vm) => self.resume_vm(pending, vm),
            Outcome::Config(config) => self.resume_config(pending, config),
            Outcome::Found(found) => {
                if found {
                    Step::Reply(Ok(None))
                } else {
                    match pending {
                        Pending::RemoveCold(id) => Step::Reply(
                            Err(VmError::NoDeviceToRemove(id)),
                        ),
                        _ => Step::Reply(Ok(None)),
                    }
                }
            },
            Outcome::Bytes(b) => Step::Reply(Ok(Some(b))),
        }
    }
}

} // verus!
