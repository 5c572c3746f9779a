//! Lifecycle coordination for a long-running node: the decisions that bring
//! subsystems up in order and take them down with a bounded, observable
//! shutdown.

pub mod composition;
pub mod convert;
pub mod gating;
pub mod monitor;
pub mod shutdown;
pub mod signal;
pub mod worker;
