//! Synchronization engine for a dotfile mirror.
//!
//! The crate decides; it performs no I/O. A driver walks the store, talks to
//! the version-control engine and the secret backend, and waits for ticks;
//! every decision about what to do next, and with which parameters, is taken
//! here and stated in a contract.

pub mod credentials;
pub mod error;
pub mod mirror;
pub mod orchestrator;
pub mod protocol;
pub mod reconcile;
pub mod repository;
pub mod session;
pub mod text;
