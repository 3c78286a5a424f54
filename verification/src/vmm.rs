//! The management of one virtual machine.
//!
//! The monitor owns at most one VM and its configuration. Requests and events
//! come in one at a time. What a request needs from outside (a console, a
//! hypervisor VM, a file) is asked for as an [`effect::Effect`]; whoever runs
//! the monitor performs it and reports the outcome.
//!
//! * [`host`] names the outside types,
//! * [`error`] holds the errors,
//! * [`config`] is the configuration of a VM, as far as the monitor reads it,
//! * [`ownership`] says who owns the VM,
//! * [`effect`] lists what is asked for and what comes back,
//! * [`state`] is the monitor,
//! * [`requests`] are the requests of its users, and [`resume`] is how they
//!   go on,
//! * [`dispatch`] and [`control`] are its event loop,
//! * [`startup`] and [`signals`] are how it comes up, and goes down by signal,
//! * [`version`] is what it says of itself,
//! * [`laws`] states what holds of all requests.
pub mod config;
pub mod control;
pub mod dispatch;
pub mod effect;
pub mod error;
pub mod host;
pub mod laws;
pub mod ownership;
pub mod requests;
pub mod resume;
pub mod signals;
pub mod startup;
pub mod state;
pub mod version;
