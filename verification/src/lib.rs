//! Supervisor for a sidecar process: spawning decisions, a single-slot
//! handle registry, an output relay, and deterministic shutdown.
//!
//! The supervisor is an event-driven state machine. The host application
//! delivers lifecycle events (setup, spawn outcome, child output, close
//! request, kill outcome) and performs the returned actions (spawn, kill);
//! every decision in between is made here and verified against the
//! specification-level transition system in [`supervisor`].

pub mod laws;
pub mod logging;
pub mod process;
pub mod registry;
pub mod supervisor;

pub use process::RunMode;
pub use process::SidecarHandle;
pub use process::SpawnError;
