//! Verified core of a local process supervisor.
//!
//! At application startup the supervisor decides whether a required backend
//! service is already listening on a known TCP port, launches it if not,
//! waits a bounded time for it to become ready, records the process handle
//! for later termination, and guarantees a clean teardown on exit. A small
//! registrar applies the same idempotent-creation pattern to the displayed
//! window.
//!
//! Everything that touches the operating system — the TCP probe, the
//! filesystem check, the spawn call, the sleeps, the window runtime — happens
//! at the boundary around this crate. The boundary performs one action at a
//! time and reports its outcome back; every decision taken on those outcomes
//! is made here and verified.

pub mod config;
pub mod greeting;
pub mod poller;
pub mod resolver;
pub mod store;
pub mod supervisor;
pub mod window;
