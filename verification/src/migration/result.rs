//! How a migration begins and ends for the monitor that sends it.
use crate::migration::error::Failure;
use crate::migration::error::MigratableError;
use crate::migration::error::Reason;
use crate::migration::progress::MigrationProgress;
use crate::migration::progress::MigrationState;
use crate::migration::progress::ProgressUpdate;
use crate::migration::progress::TransportationMode;
use crate::vmm::host::Host;
use crate::vmm::ownership::MaybeVmOwnership;
use crate::vmm::state::PostMigrationLifecycleEvent;
use crate::vmm::state::Vmm;
use crate::vmm::state::VmmModel;
use crate::vmm::state::VmState;
use vstd::prelude::*;

verus! {

/// What a user says of a migration to send.
#[derive(Debug)]
pub struct VmSendMigrationData {
    pub destination_url: String,
    /// Whether the receiver is on the same host.
    pub local: bool,
    /// The allowed downtime in milliseconds.
    pub downtime: u64,
    /// The timeout in seconds, zero if there is none.
    pub migration_timeout: u64,
    /// The number of connections, at least one.
    pub connections: u32,
    /// Whether there are certificates for TLS.
    pub tls: bool,
    /// Whether the monitor stays after the migration.
    pub keep_alive: bool,
}

impl VmSendMigrationData {
    /// How the memory gets to the other host.
    pub open spec fn mode(self) -> TransportationMode {
        if self.local {
            TransportationMode::Local
        } else {
            TransportationMode::Tcp(self.connections, self.tls)
        }
    }
}

/// A failure of the sender.
pub open spec fn send_reason<E>(reason: Reason) -> MigratableError<E> {
    MigratableError::MigrateSend(Failure::Reason(reason))
}

/// What became of the attempt to resume a VM after a failed migration.
#[derive(Clone, Copy, Debug, PartialEq, Eq, Structural)]
pub enum Resumption {
    /// The VM was not paused.
    NotNeeded,
    Resumed,
    Failed,
}

/// What is to be done after a migration has ended.
#[derive(Clone, Copy, Debug, PartialEq, Eq, Structural)]
pub struct Aftermath {
    /// Whether the monitor is to exit.
    pub exit: bool,
    /// What the guest asked for, and gets now.
    pub replay: Option<PostMigrationLifecycleEvent>,
    /// Whether the VM's dirty pages need no longer be logged, which would slow
    /// it down.
    pub stop_dirty_log: bool,
}

impl<H: Host> VmmModel<H> {
    /// Why a migration cannot be sent, if it cannot, as far as it depends on
    /// the owner of the VM.
    pub open spec fn send_refused(self) -> Option<Reason> {
        match self.vm {
            MaybeVmOwnership::Vmm(_) => None,
            MaybeVmOwnership::Migration(_) => Some(Reason::AlreadyMigrating),
            MaybeVmOwnership::Absent => Some(Reason::VmNotRunning),
        }
    }

    /// The monitor without a wish of the guest.
    pub open spec fn without_wish(self) -> VmmModel<H> {
        VmmModel { postponed_lifecycle_event: None, ..self }
    }

    /// The monitor while its VM is being sent.
    pub open spec fn sending(self, data: VmSendMigrationData, rest: H::MigratingVm) -> VmmModel<H> {
        VmmModel {
            vm: MaybeVmOwnership::Migration(rest),
            progress: Some(MigrationProgress::begun(data.mode(), data.downtime)),
            ..self.without_wish()
        }
    }

    /// The monitor with the migration in another state.
    pub open spec fn with_state(self, state: MigrationState) -> VmmModel<H> {
        VmmModel {
            progress: match self.progress {
                Some(progress) => Some(progress.marked(state)),
                None => None,
            },
            ..self
        }
    }

    /// The monitor after a report of the migration.
    pub open spec fn with_update(self, update: ProgressUpdate) -> VmmModel<H> {
        VmmModel {
            progress: match self.progress {
                Some(progress) => Some(progress.updated(update)),
                None => None,
            },
            ..self
        }
    }

    /// The monitor with a failed migration.
    pub open spec fn with_failure(self, text: String) -> VmmModel<H> {
        VmmModel {
            progress: match self.progress {
                Some(progress) => Some(progress.failed(text)),
                None => None,
            },
            ..self
        }
    }

    /// The monitor after a migration succeeded.
    pub open spec fn sent(self) -> VmmModel<H> {
        VmmModel { vm: MaybeVmOwnership::Absent, ..self.without_wish() }.with_state(
            MigrationState::Finished,
        )
    }

    /// The monitor after a migration failed or was cancelled: it has its VM
    /// back.
    pub open spec fn not_sent(
        self,
        vm: H::Vm,
        e: MigratableError<H::Error>,
        text: String,
    ) -> VmmModel<H> {
        let m = VmmModel { vm: MaybeVmOwnership::Vmm(vm), ..self.without_wish() };
        if e is Cancelled {
            m.with_state(MigrationState::Cancelled)
        } else {
            m.with_failure(text)
        }
    }
}

impl<H: Host> Vmm<H> {
    /// Begins to send a migration: the VM is handed out to the thread that
    /// sends it. The VM is in the given state, and `shared_memory` says whether
    /// its memory can be shared with another process; `rest` is what stays with
    /// the monitor meanwhile.
    ///
    /// Only running VMs can be migrated.
    pub fn vm_send_migration(
        &mut self,
        data: &VmSendMigrationData,
        vm_state: VmState,
        shared_memory: bool,
        rest: H::MigratingVm,
    ) -> (r: Result<H::Vm, MigratableError<H::Error>>)
        requires
            old(self)@.vm is Vmm ==> old(self)@.vm_config is Some,
            old(self)@.vm is Vmm ==> !(old(self)@.progress matches Some(p) && p.is_ongoing()),
        ensures
            match old(self)@.send_refused() {
                Some(reason) => r == Err::<H::Vm, MigratableError<H::Error>>(send_reason(reason))
                    && final(self)@ == old(self)@,
                None => if data.local && !shared_memory {
                    r == Err::<H::Vm, MigratableError<H::Error>>(
                        send_reason(Reason::LocalNeedsSharedMemory),
                    ) && final(self)@ == old(self)@.without_wish()
                } else if vm_state != VmState::Running {
                    r == Err::<H::Vm, MigratableError<H::Error>>(
                        send_reason(Reason::OnlyRunningVms),
                    ) && final(self)@ == old(self)@.without_wish()
                } else {
                    r is Ok && old(self)@.vm == MaybeVmOwnership::<H>::Vmm(r->Ok_0) && final(self)@
                        == old(self)@.sending(*data, rest)
                },
            },
    {
        match &self.vm {
            MaybeVmOwnership::Vmm(_) => {},
            MaybeVmOwnership::Migration(_) => {
                return Err(MigratableError::MigrateSend(Failure::Reason(Reason::AlreadyMigrating)));
            },
            MaybeVmOwnership::Absent => {
                return Err(MigratableError::MigrateSend(Failure::Reason(Reason::VmNotRunning)));
            },
        }
        // New migration attempt: forget the wish from any previous run.
        self.clear_postponed_lifecycle_event();
        if !shared_memory && data.local {
            return Err(
                MigratableError::MigrateSend(Failure::Reason(Reason::LocalNeedsSharedMemory)),
            );
        }
        if vm_state != VmState::Running {
            return Err(MigratableError::MigrateSend(Failure::Reason(Reason::OnlyRunningVms)));
        }
        let vm = self.vm.take_vm_for_migration(rest);
        let mode = if data.local {
            TransportationMode::Local
        } else {
            TransportationMode::Tcp(data.connections, data.tls)
        };
        self.progress = Some(MigrationProgress::new(mode, data.downtime));
        Ok(vm)
    }

    /// Takes note of the thread that sends the VM.
    pub fn migration_thread_started(&mut self, worker: H::Worker)
        requires
            old(self)@.migration_thread_handle is None,
        ensures
            final(self)@ == (VmmModel { migration_thread_handle: Some(worker), ..old(self)@ }),
    {
        self.migration_thread_handle = Some(worker);
    }

    /// Takes the VM back when the thread that sends it could not be started.
    /// The VM keeps running normally. `text` is what is told of the error,
    /// which is handed on to the user.
    pub fn migration_thread_failed(&mut self, vm: H::Vm, e: H::Error, text: String) -> (r:
        MigratableError<H::Error>)
        requires
            old(self)@.progress is Some,
        ensures
            final(self)@ == (VmmModel {
                vm: MaybeVmOwnership::Vmm(vm),
                ..old(self)@.with_failure(text)
            }),
            r == MigratableError::MigrateSend(Failure::Outside(e)),
    {
        self.vm = MaybeVmOwnership::Vmm(vm);
        self.mark_failed(text);
        MigratableError::MigrateSend(Failure::Outside(e))
    }

    fn mark_failed(&mut self, text: String)
        ensures
            final(self)@ == old(self)@.with_failure(text),
    {
        if let Some(progress) = &mut self.progress {
            progress.state = MigrationState::Failed;
            progress.failure = Some(text);
        }
    }

    fn mark(&mut self, state: MigrationState)
        ensures
            final(self)@ == old(self)@.with_state(state),
    {
        if let Some(progress) = &mut self.progress {
            progress.state = state;
        }
    }

    /// Records what an ongoing migration reports of itself.
    pub fn update_progress(&mut self, update: ProgressUpdate)
        requires
            old(self)@.progress is Some,
        ensures
            final(self)@ == old(self)@.with_update(update),
    {
        if let Some(progress) = &mut self.progress {
            progress.state = MigrationState::Ongoing(update.phase);
            progress.last_update = Some(update);
        }
    }

    /// Whether there is a migration to cancel.
    pub fn vm_cancel_migration(&self) -> (r: Result<&H::Worker, MigratableError<H::Error>>)
        requires
            self@.vm is Migration ==> self@.migration_thread_handle is Some,
        ensures
            if self@.vm is Migration {
                r is Ok && Some(*r->Ok_0) == self@.migration_thread_handle
            } else {
                r == Err::<&H::Worker, MigratableError<H::Error>>(
                    MigratableError::CancelMigration(Failure::Reason(Reason::NoMigration)),
                )
            },
    {
        match &self.vm {
            MaybeVmOwnership::Migration(_) => match &self.migration_thread_handle {
                Some(worker) => Ok(worker),
                None => vstd::pervasive::unreached(),
            },
            _ => Err(MigratableError::CancelMigration(Failure::Reason(Reason::NoMigration))),
        }
    }

    /// How the present or last migration is going, or went.
    pub fn vm_migration_progress(&self) -> (r: Option<MigrationProgress>)
        ensures
            r == self@.progress,
    {
        match &self.progress {
            Some(progress) => Some(progress.duplicate()),
            None => None,
        }
    }

    /// Hands out the thread that has sent the VM, for its result.
    pub fn take_migration_thread(&mut self) -> (r: H::Worker)
        requires
            old(self)@.migration_thread_handle is Some,
        ensures
            Some(r) == old(self)@.migration_thread_handle,
            final(self)@ == (VmmModel { migration_thread_handle: None, ..old(self)@ }),
    {
        let mut handle: Option<H::Worker> = None;
        std::mem::swap(&mut handle, &mut self.migration_thread_handle);
        match handle {
            Some(worker) => worker,
            None => vstd::pervasive::unreached(),
        }
    }

    /// Takes note of a migration that succeeded. The monitor exits unless it
    /// was asked to stay.
    pub fn migration_succeeded(&mut self, keep_alive: bool) -> (r: Aftermath)
        requires
            old(self)@.progress is Some,
        ensures
            final(self)@ == old(self)@.sent(),
            r == (Aftermath { exit: !keep_alive, replay: None, stop_dirty_log: false }),
    {
        self.vm = MaybeVmOwnership::Absent;
        self.mark(MigrationState::Finished);
        self.clear_postponed_lifecycle_event();
        Aftermath { exit: !keep_alive, replay: None, stop_dirty_log: false }
    }

    /// Takes the VM back after a migration that failed or was cancelled. It was
    /// resumed if it was paused; if that failed the monitor exits. Its dirty
    /// pages are not logged any more, and what the guest asked for meanwhile
    /// happens now. `text` is what is told of the error.
    pub fn migration_failed(
        &mut self,
        vm: H::Vm,
        e: &MigratableError<H::Error>,
        text: String,
        resumption: Resumption,
    ) -> (r: Aftermath)
        requires
            old(self)@.progress is Some,
        ensures
            final(self)@ == old(self)@.not_sent(vm, *e, text),
            r == (Aftermath {
                exit: resumption == Resumption::Failed,
                replay: old(self)@.postponed_lifecycle_event,
                stop_dirty_log: true,
            }),
    {
        self.vm = MaybeVmOwnership::Vmm(vm);
        let replay = self.current_postponed_lifecycle_event();
        if let MigratableError::Cancelled = e {
            self.mark(MigrationState::Cancelled);
        } else {
            self.mark_failed(text);
        }
        self.clear_postponed_lifecycle_event();
        Aftermath { exit: resumption == Resumption::Failed, replay, stop_dirty_log: true }
    }
}

/// Whether a VM has to be resumed after a migration that failed: only if the
/// failure came so late that it was already paused.
pub fn needs_resume(state: VmState) -> (r: bool)
    ensures
        r == (state == VmState::Paused),
{
    state == VmState::Paused
}

} // verus!
