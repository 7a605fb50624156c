//! Plain data describing the supervised process: the run mode fixed at
//! build time, the handle of a launched child, the spawn error taxonomy,
//! and the events a child emits on its output streams.

use vstd::prelude::*;

verus! {

/// Build-time run mode. In development the backend is assumed to run
/// out-of-band and the supervisor never spawns one itself.
#[derive(Clone, Copy, Debug, PartialEq, Eq, Structural)]
pub enum RunMode {
    Development,
    Production,
}

/// Handle of a launched sidecar: the identifier the shutdown coordinator
/// needs to address the OS process.
#[derive(Clone, Copy, Debug, PartialEq, Eq, Structural)]
pub struct SidecarHandle {
    pub pid: u32,
}

/// Why a spawn attempt produced no running child.
#[derive(Clone, Copy, Debug, PartialEq, Eq, Structural)]
pub enum SpawnError {
    /// The logical sidecar name was not found in the packaged-binary manifest.
    Resolution,
    /// The OS failed to create the process (missing executable, permissions).
    Launch,
}

impl SpawnError {
    /// What each error means in spec-level text.
    pub open spec fn describe_spec(self) -> Seq<char> {
        match self {
            SpawnError::Resolution => "sidecar name not found"@,
            SpawnError::Launch => "failed to spawn sidecar process"@,
        }
    }

    /// A human-readable description of the error.
    pub fn describe(&self) -> (r: String)
        ensures
            r@ == self.describe_spec(),
    {
        match self {
            SpawnError::Resolution => String::from_str("sidecar name not found"),
            SpawnError::Launch => String::from_str("failed to spawn sidecar process"),
        }
    }
}

/// Spec-level value of an [`OutputEvent`].
pub enum OutputEventView {
    Stdout(Seq<u8>),
    Stderr(Seq<u8>),
    Other,
}

/// One event delivered from the child's redirected streams. Only standard
/// output is relayed; everything else is received and dropped.
#[derive(Clone, Debug, PartialEq, Eq)]
pub enum OutputEvent {
    Stdout(Vec<u8>),
    Stderr(Vec<u8>),
    Other,
}

impl View for OutputEvent {
    type V = OutputEventView;

    open spec fn view(&self) -> OutputEventView {
        match self {
            OutputEvent::Stdout(bytes) => OutputEventView::Stdout(bytes@),
            OutputEvent::Stderr(bytes) => OutputEventView::Stderr(bytes@),
            OutputEvent::Other => OutputEventView::Other,
        }
    }
}

} // verus!
