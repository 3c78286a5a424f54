//! The outside types that the monitor handles without a look inside.
use vstd::prelude::*;

verus! {

/// What the monitor is built upon.
pub trait Host: Sized {
    /// A virtual machine.
    type Vm;

    /// What is left to the monitor of a VM that is being migrated.
    type MigratingVm;

    /// The thread that migrates a VM.
    type Worker;

    /// The console devices of a VM.
    type Console;

    /// The configuration of a device.
    type Device;

    /// A file that backs guest memory.
    type MemoryFile;

    /// The memory of a VM that is being received, and the connections that
    /// fill it.
    type ReceivedMemory;

    /// An outside error.
    type Error;
}

} // verus!
