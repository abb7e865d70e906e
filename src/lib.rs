//! Mirror of a remote git repository: the decisions that keep a local copy
//! in step with its upstream, proved against their contracts.
//!
//! The I/O (git transport, the file server, timers, signals) is performed by
//! the caller, which feeds outcomes back into the state machines defined here.

pub mod config;
pub mod credential;
pub mod sync;
pub mod schedule;
pub mod lifecycle;
