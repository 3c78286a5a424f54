//! Live migration of a VM from one host to another.
//!
//! The sender connects to the receiver and drives it by commands, each of
//! which the receiver answers. While the VM runs, its memory is sent again and
//! again, until what has changed can be sent in the allowed downtime; then the
//! VM is paused, and the rest of its memory and its state follow.
//!
//! * [`error`] holds the errors,
//! * [`protocol`] are the commands and which of them may follow each other,
//! * [`memory`] is the memory to send,
//! * [`endpoint`] is where to connect to or to listen at,
//! * [`receive`] is the receiver,
//! * [`send`] is the sender, with [`precopy`] for the running VM,
//! * [`connections`] are the additional connections for memory,
//! * [`result`] is how a migration begins and ends for the monitor,
//! * [`progress`] is how it is going,
//! * [`laws`] states what holds of sender and receiver together.
pub mod connections;
pub mod endpoint;
pub mod error;
pub mod laws;
pub mod memory;
pub mod precopy;
pub mod progress;
pub mod protocol;
pub mod receive;
pub mod result;
pub mod send;
