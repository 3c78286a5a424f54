# vmm_core

The decision logic of a virtual machine monitor, with two of its devices.

- `src/debug_console.rs`: a device that prints what the guest writes to it.
- `src/fw_cfg/`: the device through which firmware gets the kernel, the memory
  map and the ACPI tables.
- `src/vmm/`: the requests of users, the events of the control loop, the
  configuration of the VM, and how the threads come up.
- `src/migration/`: both sides of a live migration.

Verus verifies every function in `src/` but the wrappers of outside functions
that are named below. What has to be done outside, such as creating a VM or
reading from a connection, is a value: a request returns an effect together
with what is pending, and goes on when it is given the outcome. `app/` performs
the effects, with the hypervisor, the devices and the encodings behind traits.

The modules named `laws` state what holds across several functions.

A few functions only call what is written elsewhere: `acpi_tables` and
`zerocopy` for the bytes of the ACPI root pointer, `linux-loader` and
`vm-memory` for the header of a kernel image, `vm-memory` for the guest's
memory, and `str::strip_prefix` and `str::split_once` of the standard library
for the URLs of a migration. Some types of `vm-memory` and `std::sync::Barrier`
are only carried through. The contracts of these functions are believed, not
proved; each says in its doc comment what is claimed.
