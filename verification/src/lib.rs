//! Task orchestration core for a fleet of unattended client devices.
//!
//! An operator composes remote-control tasks through a turn-based dialogue;
//! devices poll for pending work and later report completion status out of
//! order. The crate holds the shared registry of devices, user sessions and
//! pending task queues, the task-id correlation table, the dialogue state
//! machine with its access gate, and the status resolver. Transport bindings
//! (chat and HTTP) live outside this crate and exchange plain values with it.

pub mod config;
pub mod dialog;
pub mod error;
pub mod laws;
pub mod model;
pub mod resolver;
pub mod state;
