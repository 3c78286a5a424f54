//! The decision logic of a virtual machine monitor.
//!
//! * [`vmm`] manages one virtual machine on behalf of its users,
//! * [`migration`] moves it from one host to another,
//! * [`fw_cfg`] and [`debug_console`] are two of its devices,
//! * [`bytes`] gives integers a meaning as byte sequences.
//!
//! Nothing here waits, reads or writes: what has to be done outside is asked
//! for, and what came of it is handed in.
pub mod bytes;
pub mod debug_console;
pub mod fw_cfg;
pub mod migration;
pub mod vmm;
