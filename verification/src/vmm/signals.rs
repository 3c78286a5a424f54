//! The signals that end the monitor.
use vstd::prelude::*;

verus! {

pub const SIGINT: i32 = 2;

pub const SIGTERM: i32 = 15;

/// The signals that the monitor handles.
pub const HANDLED_SIGNALS: [i32; 2] = [SIGTERM, SIGINT];

/// What a signal leads to.
#[derive(Clone, Copy, Debug, PartialEq, Eq, Structural)]
pub enum SignalAction {
    Ignore,
    /// Signal the exit event.
    SignalExit,
}

/// What a signal leads to.
pub fn on_signal(signal: i32) -> (r: SignalAction)
    ensures
        r == if signal == SIGTERM || signal == SIGINT {
            SignalAction::SignalExit
        } else {
            SignalAction::Ignore
        },
{
    if signal == SIGTERM || signal == SIGINT {
        SignalAction::SignalExit
    } else {
        SignalAction::Ignore
    }
}

/// What is left to do when the exit event could not be signaled.
#[derive(Clone, Copy, Debug, PartialEq, Eq, Structural)]
pub enum LastResort {
    /// Put the terminal back into its original state, and exit.
    RestoreTerminalAndExit,
    /// Exit.
    Exit,
}

/// What is left to do when the exit event could not be signaled. Usually the
/// terminal is put back into its original state when the monitor ends; here
/// that is done at once, if the original state is known and can be looked at.
pub fn exit_not_signaled(lock_failed: bool, terminal_known: bool) -> (r: LastResort)
    ensures
        r == if !lock_failed && terminal_known {
            LastResort::RestoreTerminalAndExit
        } else {
            LastResort::Exit
        },
{
    if !lock_failed && terminal_known {
        LastResort::RestoreTerminalAndExit
    } else {
        LastResort::Exit
    }
}

} // verus!
