//! Who owns the VM.
use crate::vmm::host::Host;
use vstd::prelude::*;

verus! {

/// Describes the current ownership of a running VM.
pub enum MaybeVmOwnership<H: Host> {
    /// The monitor holds the ownership of the VM.
    Vmm(H::Vm),
    /// The VM is temporarily blocked by the current ongoing migration.
    Migration(H::MigratingVm),
    /// No VM is running.
    Absent,
}

impl<H: Host> MaybeVmOwnership<H> {
    /// Takes the VM and leaves what is left to the monitor while the VM is
    /// being migrated.
    pub fn take_vm_for_migration(&mut self, rest: H::MigratingVm) -> (vm: H::Vm)
        requires
            *old(self) is Vmm,
        ensures
            *old(self) == MaybeVmOwnership::<H>::Vmm(vm),
            *final(self) == MaybeVmOwnership::<H>::Migration(rest),
    {
        let mut taken: MaybeVmOwnership<H> = MaybeVmOwnership::Migration(rest);
        std::mem::swap(self, &mut taken);
        match taken {
            MaybeVmOwnership::Vmm(vm) => vm,
            _ => vstd::pervasive::unreached(),
        }
    }

    /// The VM, if the monitor owns it.
    pub fn vm_mut(&mut self) -> (r: Option<&mut H::Vm>)
        ensures
            match *old(self) {
                MaybeVmOwnership::Vmm(vm) => {
                    &&& r is Some
                    &&& *r->Some_0 == vm
                    &&& *final(self) == MaybeVmOwnership::<H>::Vmm(*final(r->Some_0))
                },
                _ => r is None && *final(self) == *old(self),
            },
    {
        match self {
            MaybeVmOwnership::Vmm(vm) => Some(vm),
            _ => None,
        }
    }
}

} // verus!
