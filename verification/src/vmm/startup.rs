//! How the threads of the monitor come up.
//!
//! A thread restricts itself before it does anything else: first by a seccomp
//! filter, unless that is empty, then by landlock if that is wanted.
use crate::vmm::error::Error;
use crate::vmm::version::BuildFeatures;
use vstd::prelude::*;

verus! {

/// Where the HTTP API is served.
#[derive(Clone, Copy, Debug, PartialEq, Eq, Structural)]
pub enum HttpEndpoint {
    /// At a path.
    Path,
    /// At a descriptor.
    Fd,
    /// Nowhere.
    Nowhere,
}

/// A step of the start of the monitor.
#[derive(Clone, Copy, Debug, PartialEq, Eq, Structural)]
pub enum StartStep {
    /// Clone the event of debug requests, and that of the VM's debug events.
    CloneDebugEvents,
    CloneApiEvent,
    CreateSeccompFilter,
    CloneExitEvent,
    /// Start the thread of the monitor, which runs the control loop.
    SpawnVmmThread,
    /// Clone the events that the D-Bus thread signals.
    CloneDbusEvents,
    StartDbus,
    StartHttp(HttpEndpoint),
    SpawnGdbThread,
}

/// What decides how the monitor is started.
#[derive(Clone, Copy, Debug)]
pub struct StartOptions {
    pub features: BuildFeatures,
    /// Whether the D-Bus API is wanted.
    pub dbus: bool,
    /// Whether there is a path for the HTTP API.
    pub http_path: bool,
    /// Whether there is a descriptor for the HTTP API.
    pub http_fd: bool,
    /// Whether there is a path for a debugger.
    pub debug_path: bool,
}

impl StartOptions {
    /// Where the HTTP API is served: a path comes before a descriptor.
    pub open spec fn http(self) -> HttpEndpoint {
        if self.http_path {
            HttpEndpoint::Path
        } else if self.http_fd {
            HttpEndpoint::Fd
        } else {
            HttpEndpoint::Nowhere
        }
    }

    /// The steps of the start. The APIs come last, when there is a thread that
    /// serves them.
    pub open spec fn steps(self) -> Seq<StartStep> {
        (if self.features.guest_debug {
            seq![StartStep::CloneDebugEvents]
        } else {
            Seq::empty()
        }) + seq![
            StartStep::CloneApiEvent,
            StartStep::CreateSeccompFilter,
            StartStep::CloneExitEvent,
            StartStep::SpawnVmmThread,
        ] + (if self.features.dbus_api && self.dbus {
            seq![StartStep::CloneDbusEvents, StartStep::StartDbus]
        } else {
            Seq::empty()
        }) + (if self.http() != HttpEndpoint::Nowhere {
            seq![StartStep::StartHttp(self.http())]
        } else {
            Seq::empty()
        }) + (if self.features.guest_debug && self.debug_path {
            seq![StartStep::SpawnGdbThread]
        } else {
            Seq::empty()
        })
    }
}

/// The steps of the start.
pub fn start_vmm_thread(options: &StartOptions) -> (r: Vec<StartStep>)
    ensures
        r@ == options.steps(),
{
    let mut r: Vec<StartStep> = Vec::new();
    if options.features.guest_debug {
        r.push(StartStep::CloneDebugEvents);
    }
    r.push(StartStep::CloneApiEvent);
    r.push(StartStep::CreateSeccompFilter);
    r.push(StartStep::CloneExitEvent);
    r.push(StartStep::SpawnVmmThread);
    if options.features.dbus_api && options.dbus {
        r.push(StartStep::CloneDbusEvents);
        r.push(StartStep::StartDbus);
    }
    if options.http_path {
        r.push(StartStep::StartHttp(HttpEndpoint::Path));
    } else if options.http_fd {
        r.push(StartStep::StartHttp(HttpEndpoint::Fd));
    }
    if options.features.guest_debug && options.debug_path {
        r.push(StartStep::SpawnGdbThread);
    }
    assert(r@ =~= options.steps());
    r
}

/// The error when a step of the start has failed.
pub fn start_failed<E>(step: StartStep, e: E) -> (r: Error<E>)
    ensures
        r == match step {
            StartStep::CloneDebugEvents => Error::EventFdClone(e),
            StartStep::CloneApiEvent => Error::EventFdClone(e),
            StartStep::CreateSeccompFilter => Error::CreateSeccompFilter(e),
            StartStep::CloneExitEvent => Error::EventFdClone(e),
            StartStep::SpawnVmmThread => Error::VmmThreadSpawn(e),
            StartStep::CloneDbusEvents => Error::EventFdClone(e),
            StartStep::StartDbus => Error::Outside(e),
            StartStep::StartHttp(_) => Error::Outside(e),
            StartStep::SpawnGdbThread => Error::GdbThreadSpawn(e),
        },
{
    match step {
        StartStep::CloneDebugEvents => Error::EventFdClone(e),
        StartStep::CloneApiEvent => Error::EventFdClone(e),
        StartStep::CreateSeccompFilter => Error::CreateSeccompFilter(e),
        StartStep::CloneExitEvent => Error::EventFdClone(e),
        StartStep::SpawnVmmThread => Error::VmmThreadSpawn(e),
        StartStep::CloneDbusEvents => Error::EventFdClone(e),
        StartStep::StartDbus => Error::Outside(e),
        StartStep::StartHttp(_) => Error::Outside(e),
        StartStep::SpawnGdbThread => Error::GdbThreadSpawn(e),
    }
}

/// A thread that the monitor starts.
#[derive(Clone, Copy, Debug, PartialEq, Eq, Structural)]
pub enum ThreadRole {
    /// The control loop. What it fails with is its result.
    Vmm,
    EventMonitor,
    SignalHandler,
}

/// A step of a thread.
#[derive(Clone, Copy, Debug, PartialEq, Eq, Structural)]
pub enum ThreadStep {
    ApplySeccompFilter,
    CreateLandlock,
    ApplyLandlock,
    /// Do what the thread is for.
    Run,
}

/// The steps of a thread. The control loop is not restricted by landlock
/// before a VM is created.
pub open spec fn thread_plan(role: ThreadRole, filter_empty: bool, landlock: bool) -> Seq<
    ThreadStep,
> {
    (if filter_empty {
        Seq::empty()
    } else {
        seq![ThreadStep::ApplySeccompFilter]
    }) + (if landlock && role != ThreadRole::Vmm {
        seq![ThreadStep::CreateLandlock, ThreadStep::ApplyLandlock]
    } else {
        Seq::empty()
    }) + seq![ThreadStep::Run]
}

/// The steps of a thread.
pub fn thread_steps(role: ThreadRole, filter_empty: bool, landlock: bool) -> (r: Vec<ThreadStep>)
    ensures
        r@ == thread_plan(role, filter_empty, landlock),
{
    let mut r: Vec<ThreadStep> = Vec::new();
    if !filter_empty {
        r.push(ThreadStep::ApplySeccompFilter);
    }
    if landlock && role != ThreadRole::Vmm {
        r.push(ThreadStep::CreateLandlock);
        r.push(ThreadStep::ApplyLandlock);
    }
    r.push(ThreadStep::Run);
    assert(r@ =~= thread_plan(role, filter_empty, landlock));
    r
}

/// What becomes of a thread one of whose steps has failed.
#[derive(Clone, Copy, Debug, PartialEq, Eq, Structural)]
pub struct ThreadFailure {
    /// Whether the exit event is signaled.
    pub signal_exit: bool,
    /// Whether the thread still does what it is for.
    pub goes_on: bool,
}

/// What becomes of a thread one of whose steps has failed. The control loop
/// reports its failure as its result. The other threads signal the exit event,
/// except the event monitor without a landlock object; the signal handler
/// still handles signals if it is only not restricted by landlock.
pub fn thread_failed(role: ThreadRole, step: ThreadStep) -> (r: ThreadFailure)
    ensures
        r == match (role, step) {
            (ThreadRole::Vmm, _) => ThreadFailure { signal_exit: false, goes_on: false },
            (ThreadRole::EventMonitor, ThreadStep::CreateLandlock) => ThreadFailure {
                signal_exit: false,
                goes_on: false,
            },
            (ThreadRole::EventMonitor, _) => ThreadFailure { signal_exit: true, goes_on: false },
            (ThreadRole::SignalHandler, ThreadStep::CreateLandlock) => ThreadFailure {
                signal_exit: true,
                goes_on: true,
            },
            (ThreadRole::SignalHandler, ThreadStep::ApplyLandlock) => ThreadFailure {
                signal_exit: true,
                goes_on: true,
            },
            (ThreadRole::SignalHandler, _) => ThreadFailure { signal_exit: true, goes_on: false },
        },
{
    match role {
        ThreadRole::Vmm => ThreadFailure { signal_exit: false, goes_on: false },
        ThreadRole::EventMonitor => ThreadFailure {
            signal_exit: step != ThreadStep::CreateLandlock,
            goes_on: false,
        },
        ThreadRole::SignalHandler => ThreadFailure {
            signal_exit: true,
            goes_on: step == ThreadStep::CreateLandlock || step == ThreadStep::ApplyLandlock,
        },
    }
}

/// The error of a thread one of whose steps has failed.
pub fn thread_error<E>(step: ThreadStep, e: E) -> (r: Error<E>)
    ensures
        r == match step {
            ThreadStep::ApplySeccompFilter => Error::ApplySeccompFilter(e),
            ThreadStep::CreateLandlock => Error::CreateLandlock(e),
            ThreadStep::ApplyLandlock => Error::ApplyLandlock(e),
            ThreadStep::Run => Error::Outside(e),
        },
{
    match step {
        ThreadStep::ApplySeccompFilter => Error::ApplySeccompFilter(e),
        ThreadStep::CreateLandlock => Error::CreateLandlock(e),
        ThreadStep::ApplyLandlock => Error::ApplyLandlock(e),
        ThreadStep::Run => Error::Outside(e),
    }
}

/// The error when a thread cannot be started.
pub fn spawn_failed<E>(role: ThreadRole, e: E) -> (r: Error<E>)
    ensures
        r == match role {
            ThreadRole::Vmm => Error::VmmThreadSpawn(e),
            ThreadRole::EventMonitor => Error::EventMonitorThreadSpawn(e),
            ThreadRole::SignalHandler => Error::SignalHandlerSpawn(e),
        },
{
    match role {
        ThreadRole::Vmm => Error::VmmThreadSpawn(e),
        ThreadRole::EventMonitor => Error::EventMonitorThreadSpawn(e),
        ThreadRole::SignalHandler => Error::SignalHandlerSpawn(e),
    }
}

/// What the event monitor writes of an event: its text, and an empty line.
pub fn event_record(event: &[u8]) -> (r: Vec<u8>)
    ensures
        r@ == event@ + seq![10u8, 10u8],
{
    let mut r: Vec<u8> = Vec::new();
    crate::bytes::push_all(&mut r, event);
    r.push(10);
    r.push(10);
    assert(r@ =~= event@ + seq![10u8, 10u8]);
    r
}

} // verus!
