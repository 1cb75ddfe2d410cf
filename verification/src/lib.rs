//! Startup core for a small desktop application.
//!
//! Two components, both free of framework wiring:
//!
//! - [`greeter`]: a pure function that maps a name to a fixed-format
//!   greeting string.
//! - [`provision`]: an idempotent provisioner for the application's
//!   configuration directory, written as a state machine whose decisions
//!   are verified here while the host performs the actual path resolution
//!   and filesystem calls.

pub mod greeter;
pub mod provision;
