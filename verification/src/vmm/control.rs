//! The control loop.
//!
//! The loop waits for events. An event is consumed first; what follows then
//! depends on what it is about and on who owns the VM.
use crate::vmm::dispatch::EpollDispatch;
use crate::vmm::effect::AfterShutdown;
use crate::vmm::effect::Effect;
use crate::vmm::effect::Pending;
use crate::vmm::effect::Step;
use crate::vmm::error::Error;
use crate::vmm::error::VmError;
use crate::vmm::host::Host;
use crate::vmm::ownership::MaybeVmOwnership;
use crate::vmm::state::PostMigrationLifecycleEvent;
use crate::vmm::state::Vmm;
use crate::vmm::state::VmmModel;
use vstd::prelude::*;

verus! {

/// How many events are taken at a time.
pub const EPOLL_EVENTS_LEN: usize = 100;

/// What the loop does next.
#[derive(Debug)]
pub enum LoopDecision<E> {
    /// Take the next event, or wait for more.
    Continue,
    /// Leave the loop.
    Stop,
    /// Leave the loop with an error.
    Fail(Error<E>),
}

/// On whose behalf a request is handled.
#[derive(Clone, Copy, Debug, PartialEq, Eq, Structural)]
pub enum Origin {
    /// The exit event.
    Exit,
    /// The reset event.
    Reset,
    /// The guest's exit, while the monitor stays.
    GuestExit,
    /// The guest's exit, which ends the monitor.
    GuestExitLast,
}

/// What follows an event once it was consumed.
pub enum EventStep<H: Host> {
    /// Nothing.
    Nothing,
    /// Handle a request.
    Handle(Step<H>, Origin),
    /// Activate the virtio devices that are waiting for it.
    ActivateDevices,
    /// Take so many requests of users from their channel.
    TakeApiRequests(u64),
    /// Take so many requests of a debugger from their channel.
    TakeDebugRequests(u64),
    /// Look for the result of the migration.
    CheckMigration,
}

/// Whether waiting for events goes on after an error: an interruption is none.
pub fn wait_failed<E>(interrupted: bool, e: E) -> (r: LoopDecision<E>)
    ensures
        r == if interrupted {
            LoopDecision::Continue
        } else {
            LoopDecision::Fail(Error::Epoll(e))
        },
{
    if interrupted {
        LoopDecision::Continue
    } else {
        LoopDecision::Fail(Error::Epoll(e))
    }
}

/// Whether an event has to be consumed. Unknown ones are not, and those of a
/// debugger only if that is supported.
pub fn is_consumed(dispatch: EpollDispatch, guest_debug: bool) -> (r: bool)
    ensures
        r == (dispatch != EpollDispatch::Unknown && (dispatch != EpollDispatch::Debug
            || guest_debug)),
{
    dispatch != EpollDispatch::Unknown && (dispatch != EpollDispatch::Debug || guest_debug)
}

impl<H: Host> VmmModel<H> {
    /// What follows an event that was consumed, with the number it had
    /// counted.
    pub open spec fn on_event(self, dispatch: EpollDispatch, count: u64) -> (
        VmmModel<H>,
        EventStep<H>,
    ) {
        match dispatch {
            EpollDispatch::Exit => {
                let (m, step) = self.delete();
                (m, EventStep::Handle(step, Origin::Exit))
            },
            EpollDispatch::Reset => if self.vm is Migration {
                (self.postpone(PostMigrationLifecycleEvent::VmReboot), EventStep::Nothing)
            } else {
                (
                    self,
                    EventStep::Handle(
                        self.on_vm(Effect::ShutdownVm, Pending::RebootShutdown),
                        Origin::Reset,
                    ),
                )
            },
            EpollDispatch::GuestExit => if self.vm is Migration {
                (self.postpone(PostMigrationLifecycleEvent::VmShutdown), EventStep::Nothing)
            } else if self.no_shutdown {
                let (m, step) = self.shutdown(AfterShutdown::Reply);
                (m, EventStep::Handle(step, Origin::GuestExit))
            } else {
                let (m, step) = self.delete();
                (m, EventStep::Handle(step, Origin::GuestExitLast))
            },
            EpollDispatch::ActivateVirtioDevices => (
                self,
                if self.vm is Absent {
                    EventStep::Nothing
                } else {
                    EventStep::ActivateDevices
                },
            ),
            EpollDispatch::Api => (self, EventStep::TakeApiRequests(count)),
            EpollDispatch::Debug => (self, EventStep::TakeDebugRequests(count)),
            EpollDispatch::CheckMigration => (self, EventStep::CheckMigration),
            EpollDispatch::Unknown => (self, EventStep::Nothing),
        }
    }
}

impl<H: Host> Vmm<H> {
    /// Goes on after an event was consumed. `count` is the number that it had
    /// counted.
    pub fn on_event(&mut self, dispatch: EpollDispatch, count: u64) -> (r: EventStep<H>)
        ensures
            (final(self)@, r) == old(self)@.on_event(dispatch, count),
    {
        let migrating: bool = match &self.vm {
            MaybeVmOwnership::Migration(_) => true,
            _ => false,
        };
        match dispatch {
            EpollDispatch::Exit => {
                let step = self.vmm_shutdown();
                EventStep::Handle(step, Origin::Exit)
            },
            EpollDispatch::Reset => {
                if migrating {
                    self.postpone_lifecycle_event_during_migration(
                        PostMigrationLifecycleEvent::VmReboot,
                    );
                    return EventStep::Nothing;
                }
                EventStep::Handle(self.vm_reboot(), Origin::Reset)
            },
            EpollDispatch::GuestExit => {
                if migrating {
                    self.postpone_lifecycle_event_during_migration(
                        PostMigrationLifecycleEvent::VmShutdown,
                    );
                    return EventStep::Nothing;
                }
                if self.no_shutdown {
                    let step = self.vm_shutdown();
                    EventStep::Handle(step, Origin::GuestExit)
                } else {
                    let step = self.vmm_shutdown();
                    EventStep::Handle(step, Origin::GuestExitLast)
                }
            },
            EpollDispatch::ActivateVirtioDevices => match &self.vm {
                MaybeVmOwnership::Absent => EventStep::Nothing,
                _ => EventStep::ActivateDevices,
            },
            EpollDispatch::Api => EventStep::TakeApiRequests(count),
            EpollDispatch::Debug => EventStep::TakeDebugRequests(count),
            EpollDispatch::CheckMigration => EventStep::CheckMigration,
            EpollDispatch::Unknown => EventStep::Nothing,
        }
    }

    /// Whether a request of a debugger can be handled.
    pub fn debug_request(&self) -> (r: Result<(), VmError<H::Error>>)
        ensures
            r == if self@.vm is Vmm {
                Ok::<(), VmError<H::Error>>(())
            } else {
                Err::<(), VmError<H::Error>>(VmError::VmNotRunning)
            },
    {
        match &self.vm {
            MaybeVmOwnership::Vmm(_) => Ok(()),
            _ => Err(VmError::VmNotRunning),
        }
    }
}

/// What the loop does after a request that an event has led to.
pub fn after_request<E>(origin: Origin, result: Result<Option<Vec<u8>>, VmError<E>>) -> (r:
    LoopDecision<E>)
    ensures
        r == match result {
            Ok(_) => match origin {
                Origin::Exit => LoopDecision::Stop,
                Origin::GuestExitLast => LoopDecision::Stop,
                _ => LoopDecision::Continue,
            },
            Err(e) => LoopDecision::Fail(
                match origin {
                    Origin::Exit => Error::VmmShutdown(e),
                    Origin::GuestExitLast => Error::VmmShutdown(e),
                    Origin::Reset => Error::VmReboot(e),
                    Origin::GuestExit => Error::VmShutdown(e),
                },
            ),
        },
{
    match result {
        Ok(_) => match origin {
            Origin::Exit => LoopDecision::Stop,
            Origin::GuestExitLast => LoopDecision::Stop,
            _ => LoopDecision::Continue,
        },
        Err(e) => LoopDecision::Fail(
            match origin {
                Origin::Exit => Error::VmmShutdown(e),
                Origin::GuestExitLast => Error::VmmShutdown(e),
                Origin::Reset => Error::VmReboot(e),
                Origin::GuestExit => Error::VmShutdown(e),
            },
        ),
    }
}

/// Something that the loop itself needs.
#[derive(Clone, Copy, Debug, PartialEq, Eq, Structural)]
pub enum LoopOperation {
    ConsumeEvent,
    ActivateDevices,
    ReceiveApiRequest,
    ReceiveDebugRequest,
    SendDebugResponse,
    JoinThread,
}

/// The error when something that the loop needs has failed.
pub fn operation_failed<E>(operation: LoopOperation, e: E) -> (r: Error<E>)
    ensures
        r == match operation {
            LoopOperation::ConsumeEvent => Error::EventFdRead(e),
            LoopOperation::ActivateDevices => Error::ActivateVirtioDevices(e),
            LoopOperation::ReceiveApiRequest => Error::ApiRequestRecv(e),
            LoopOperation::ReceiveDebugRequest => Error::GdbRequestRecv(e),
            LoopOperation::SendDebugResponse => Error::GdbResponseSend(e),
            LoopOperation::JoinThread => Error::ThreadCleanup(e),
        },
{
    match operation {
        LoopOperation::ConsumeEvent => Error::EventFdRead(e),
        LoopOperation::ActivateDevices => Error::ActivateVirtioDevices(e),
        LoopOperation::ReceiveApiRequest => Error::ApiRequestRecv(e),
        LoopOperation::ReceiveDebugRequest => Error::GdbRequestRecv(e),
        LoopOperation::SendDebugResponse => Error::GdbResponseSend(e),
        LoopOperation::JoinThread => Error::ThreadCleanup(e),
    }
}

/// What the loop does after a request of a user, which says whether it is the
/// last one.
pub fn after_api_request<E>(result: Result<bool, Error<E>>) -> (r: LoopDecision<E>)
    ensures
        r == match result {
            Ok(true) => LoopDecision::Stop,
            Ok(false) => LoopDecision::Continue,
            Err(e) => LoopDecision::Fail(e),
        },
{
    match result {
        Ok(last) => {
            if last {
                LoopDecision::Stop
            } else {
                LoopDecision::Continue
            }
        },
        Err(e) => LoopDecision::Fail(e),
    }
}

} // verus!
