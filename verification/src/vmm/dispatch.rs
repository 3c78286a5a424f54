//! The events of the control loop.
use vstd::prelude::*;
use vstd::std_specs::convert::FromSpecImpl;

verus! {

/// What an event is about.
#[derive(Debug, Clone, Copy, PartialEq, Eq, Structural)]
pub enum EpollDispatch {
    Exit,
    Reset,
    Api,
    ActivateVirtioDevices,
    Debug,
    CheckMigration,
    GuestExit,
    Unknown,
}

/// What the number of an event stands for.
pub open spec fn dispatch_of(v: u64) -> EpollDispatch {
    match v {
        0 => EpollDispatch::Exit,
        1 => EpollDispatch::Reset,
        2 => EpollDispatch::Api,
        3 => EpollDispatch::ActivateVirtioDevices,
        4 => EpollDispatch::Debug,
        5 => EpollDispatch::CheckMigration,
        6 => EpollDispatch::GuestExit,
        _ => EpollDispatch::Unknown,
    }
}

impl FromSpecImpl<u64> for EpollDispatch {
    open spec fn obeys_from_spec() -> bool {
        true
    }

    open spec fn from_spec(v: u64) -> EpollDispatch {
        dispatch_of(v)
    }
}

impl From<u64> for EpollDispatch {
    fn from(v: u64) -> (r: EpollDispatch) {
        match v {
            0 => EpollDispatch::Exit,
            1 => EpollDispatch::Reset,
            2 => EpollDispatch::Api,
            3 => EpollDispatch::ActivateVirtioDevices,
            4 => EpollDispatch::Debug,
            5 => EpollDispatch::CheckMigration,
            6 => EpollDispatch::GuestExit,
            _ => EpollDispatch::Unknown,
        }
    }
}

impl EpollDispatch {
    /// The number that stands for what an event is about.
    pub open spec fn number(self) -> u64 {
        match self {
            EpollDispatch::Exit => 0,
            EpollDispatch::Reset => 1,
            EpollDispatch::Api => 2,
            EpollDispatch::ActivateVirtioDevices => 3,
            EpollDispatch::Debug => 4,
            EpollDispatch::CheckMigration => 5,
            EpollDispatch::GuestExit => 6,
            EpollDispatch::Unknown => 7,
        }
    }

    /// The number under which an event is registered.
    pub fn token(self) -> (r: u64)
        ensures
            r == self.number(),
    {
        match self {
            EpollDispatch::Exit => 0,
            EpollDispatch::Reset => 1,
            EpollDispatch::Api => 2,
            EpollDispatch::ActivateVirtioDevices => 3,
            EpollDispatch::Debug => 4,
            EpollDispatch::CheckMigration => 5,
            EpollDispatch::GuestExit => 6,
            EpollDispatch::Unknown => 7,
        }
    }
}

/// The events that the control loop waits for, in the order in which they are
/// registered. Requests of a debugger come only if that is supported.
pub fn registrations(guest_debug: bool) -> (r: Vec<EpollDispatch>)
    ensures
        r@ == seq![
            EpollDispatch::Exit,
            EpollDispatch::Reset,
            EpollDispatch::GuestExit,
            EpollDispatch::ActivateVirtioDevices,
            EpollDispatch::Api,
        ] + (if guest_debug {
            seq![EpollDispatch::Debug]
        } else {
            Seq::empty()
        }) + seq![EpollDispatch::CheckMigration],
{
    let mut r: Vec<EpollDispatch> = Vec::new();
    r.push(EpollDispatch::Exit);
    r.push(EpollDispatch::Reset);
    r.push(EpollDispatch::GuestExit);
    r.push(EpollDispatch::ActivateVirtioDevices);
    r.push(EpollDispatch::Api);
    if guest_debug {
        r.push(EpollDispatch::Debug);
    }
    r.push(EpollDispatch::CheckMigration);
    assert(r@ =~= seq![
        EpollDispatch::Exit,
        EpollDispatch::Reset,
        EpollDispatch::GuestExit,
        EpollDispatch::ActivateVirtioDevices,
        EpollDispatch::Api,
    ] + (if guest_debug {
        seq![EpollDispatch::Debug]
    } else {
        Seq::empty()
    }) + seq![EpollDispatch::CheckMigration]);
    r
}

/// An event that is registered is recognized again.
pub proof fn law_events_are_recognized(dispatch: EpollDispatch)
    ensures
        dispatch_of(dispatch.number()) == dispatch,
{
}

} // verus!
