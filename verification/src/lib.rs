//! Supervisor for a single companion ("sidecar") process.
//!
//! The library holds the logic of a desktop shell that launches one
//! long-running backend executable, keeps a handle to it in a shared slot,
//! forwards the child's standard-output lines to a log sink, and notes
//! window-destroy events.  The host framework performs the actual spawn and
//! delivers the events; every decision about what to store and what to log is
//! made here, under contract.

pub mod decode;
pub mod forward;
pub mod logs;
pub mod supervisor;
