//! The sidecar lifecycle supervisor. Every decision — whether to spawn,
//! what to register, which output to relay, whom to kill — is taken here,
//! as a transition of the specification-level machine [`step`]; the host
//! merely delivers events and performs the returned [`Action`]s.
//!
//! Lifecycle, from the supervisor's point of view:
//! not started → (spawn success) → running → (close request) → stopped;
//! a spawn failure is terminal for the run, and development mode never
//! leaves the initial phase.

use vstd::prelude::*;
use crate::logging::{log_view, lemma_log_view_push, lossy_decode, decode_lossy};
use crate::logging::{LogRecord, LogRecordView};
use crate::process::{OutputEvent, OutputEventView, RunMode, SidecarHandle, SpawnError};
use crate::registry::{Registry, spec_store, spec_take};

verus! {

/// Milliseconds the production spawn is delayed after setup, a best-effort
/// hint that lets the UI become visible before backend output floods the
/// log; no synchronization is implied.
pub const SPAWN_DELAY_MS: u64 = 500;

/// Where the sidecar stands in its lifecycle.
#[derive(Clone, Copy, Debug, PartialEq, Eq, Structural)]
pub enum Phase {
    NotStarted,
    Running,
    Stopped,
}

/// Spec-level value of an [`Action`].
pub enum ActionView {
    Idle,
    SpawnBackend { name: Seq<char>, delay_ms: u64 },
    Kill { pid: u32 },
}

/// What the host must do next: nothing, launch the sidecar resolved from
/// `name` after `delay_ms`, or send a kill signal to `pid`.
#[derive(Clone, Debug, PartialEq, Eq)]
pub enum Action {
    Idle,
    SpawnBackend { name: String, delay_ms: u64 },
    Kill { pid: u32 },
}

impl View for Action {
    type V = ActionView;

    open spec fn view(&self) -> ActionView {
        match self {
            Action::Idle => ActionView::Idle,
            Action::SpawnBackend { name, delay_ms } => ActionView::SpawnBackend {
                name: name@,
                delay_ms: *delay_ms,
            },
            Action::Kill { pid } => ActionView::Kill { pid: *pid },
        }
    }
}

/// Spec-level state of the supervisor.
#[verifier::ext_equal]
pub struct SupervisorView {
    pub mode: RunMode,
    pub phase: Phase,
    pub slot: Option<SidecarHandle>,
    pub log: Seq<LogRecordView>,
    pub name: Seq<char>,
}

/// One lifecycle event delivered by the host.
pub enum EventView {
    Setup,
    SpawnResult(Result<SidecarHandle, SpawnError>),
    Output(OutputEventView),
    CloseRequested,
    KillResult { pid: u32, ok: bool },
}

/// The state the supervisor starts in: empty registry, empty log, sidecar
/// not started.
pub open spec fn init_state(mode: RunMode, name: Seq<char>) -> SupervisorView {
    SupervisorView { mode, phase: Phase::NotStarted, slot: None, log: Seq::empty(), name }
}

/// Application setup. Development mode records the mode selection and does
/// nothing else; production mode asks the host to spawn the sidecar after
/// the startup delay.
pub open spec fn step_setup(m: SupervisorView) -> (SupervisorView, ActionView) {
    match m.mode {
        RunMode::Development => (
            SupervisorView { log: m.log.push(LogRecordView::DevModeNoSidecar), ..m },
            ActionView::Idle,
        ),
        RunMode::Production => (
            m,
            ActionView::SpawnBackend { name: m.name, delay_ms: SPAWN_DELAY_MS },
        ),
    }
}

/// Outcome of the host's spawn attempt. Success registers the handle —
/// before any output event is consumed — and records the process ID;
/// failure records the error and leaves the prior state untouched, with no
/// retry.
pub open spec fn step_spawn_result(
    m: SupervisorView,
    r: Result<SidecarHandle, SpawnError>,
) -> SupervisorView {
    match r {
        Ok(h) => SupervisorView {
            phase: Phase::Running,
            slot: spec_store(m.slot, h),
            log: m.log.push(LogRecordView::SpawnedBackend { pid: h.pid }),
            ..m
        },
        Err(e) => SupervisorView { log: m.log.push(LogRecordView::SpawnFailed { reason: e }), ..m },
    }
}

/// One event from the child's streams. Standard output is decoded lossily
/// and forwarded as one informational record; standard error and all other
/// kinds are dropped.
pub open spec fn step_output(m: SupervisorView, ev: OutputEventView) -> SupervisorView {
    match ev {
        OutputEventView::Stdout(bytes) => SupervisorView {
            log: m.log.push(LogRecordView::BackendOutput { line: lossy_decode(bytes) }),
            ..m
        },
        _ => m,
    }
}

/// A window-close request. Only production mode owns a child: the handle,
/// if any, is drained from the registry and the host is asked to kill it;
/// an empty slot — development mode, a failed spawn, or a spawn still in
/// flight — makes this a silent no-op.
pub open spec fn step_close(m: SupervisorView) -> (SupervisorView, ActionView) {
    match m.mode {
        RunMode::Development => (m, ActionView::Idle),
        RunMode::Production => match m.slot {
            Some(h) => (
                SupervisorView { phase: Phase::Stopped, slot: spec_take(m.slot).0, ..m },
                ActionView::Kill { pid: h.pid },
            ),
            None => (m, ActionView::Idle),
        },
    }
}

/// Outcome of the host's kill signal: success is recorded at info, failure
/// as a warning and swallowed — application close is never blocked.
pub open spec fn step_kill_result(m: SupervisorView, pid: u32, ok: bool) -> SupervisorView {
    if ok {
        SupervisorView { log: m.log.push(LogRecordView::KillSucceeded { pid }), ..m }
    } else {
        SupervisorView { log: m.log.push(LogRecordView::KillFailed { pid }), ..m }
    }
}

/// The full transition function: next state and the action the host must
/// perform.
pub open spec fn step(m: SupervisorView, e: EventView) -> (SupervisorView, ActionView) {
    match e {
        EventView::Setup => step_setup(m),
        EventView::SpawnResult(r) => (step_spawn_result(m, r), ActionView::Idle),
        EventView::Output(ev) => (step_output(m, ev), ActionView::Idle),
        EventView::CloseRequested => step_close(m),
        EventView::KillResult { pid, ok } => (step_kill_result(m, pid, ok), ActionView::Idle),
    }
}

/// The supervisor's state: run mode, lifecycle phase, the handle registry,
/// the structured log, and the logical sidecar name. The host keeps one
/// value of this behind its own mutual-exclusion guard and hands every
/// lifecycle event to the methods below.
pub struct Supervisor {
    pub mode: RunMode,
    pub phase: Phase,
    pub registry: Registry,
    pub log: Vec<LogRecord>,
    pub name: String,
}

impl View for Supervisor {
    type V = SupervisorView;

    open spec fn view(&self) -> SupervisorView {
        SupervisorView {
            mode: self.mode,
            phase: self.phase,
            slot: self.registry@,
            log: log_view(self.log@),
            name: self.name@,
        }
    }
}

impl Supervisor {
    /// A fresh supervisor for one application run: nothing spawned, nothing
    /// registered, nothing logged.
    pub fn new(mode: RunMode, name: String) -> (s: Supervisor)
        ensures
            s@ == init_state(mode, name@),
    {
        let s = Supervisor {
            mode,
            phase: Phase::NotStarted,
            registry: Registry::new(),
            log: Vec::new(),
            name,
        };
        proof {
            assert(s@ =~= init_state(mode, name@));
        }
        s
    }

    /// Handles application setup, once per run.
    pub fn on_setup(&mut self) -> (a: Action)
        ensures
            final(self)@ == step_setup(old(self)@).0,
            a@ == step_setup(old(self)@).1,
    {
        match self.mode {
            RunMode::Development => {
                self.log.push(LogRecord::DevModeNoSidecar);
                proof {
                    lemma_log_view_push(old(self).log@, LogRecord::DevModeNoSidecar);
                    assert(self@ =~= step_setup(old(self)@).0);
                }
                Action::Idle
            },
            RunMode::Production => {
                let a = Action::SpawnBackend { name: self.name.clone(), delay_ms: SPAWN_DELAY_MS };
                proof {
                    assert(self@ =~= step_setup(old(self)@).0);
                }
                a
            },
        }
    }

    /// Handles the outcome of the spawn the host performed.
    pub fn on_spawn_result(&mut self, r: Result<SidecarHandle, SpawnError>)
        ensures
            final(self)@ == step_spawn_result(old(self)@, r),
    {
        match r {
            Ok(h) => {
                self.registry.store(h);
                self.phase = Phase::Running;
                self.log.push(LogRecord::SpawnedBackend { pid: h.pid });
                proof {
                    lemma_log_view_push(old(self).log@, LogRecord::SpawnedBackend { pid: h.pid });
                    assert(self@ =~= step_spawn_result(old(self)@, r));
                }
            },
            Err(e) => {
                self.log.push(LogRecord::SpawnFailed { reason: e });
                proof {
                    lemma_log_view_push(old(self).log@, LogRecord::SpawnFailed { reason: e });
                    assert(self@ =~= step_spawn_result(old(self)@, r));
                }
            },
        }
    }

    /// Relays one event from the child's streams.
    pub fn on_output_event(&mut self, ev: OutputEvent)
        ensures
            final(self)@ == step_output(old(self)@, ev@),
    {
        match ev {
            OutputEvent::Stdout(bytes) => {
                let line = decode_lossy(&bytes);
                let rec = LogRecord::BackendOutput { line };
                self.log.push(rec);
                proof {
                    lemma_log_view_push(old(self).log@, rec);
                    assert(self@ =~= step_output(old(self)@, ev@));
                }
            },
            _ => {
                proof {
                    assert(self@ =~= step_output(old(self)@, ev@));
                }
            },
        }
    }

    /// Handles a window-close request.
    pub fn on_close_requested(&mut self) -> (a: Action)
        ensures
            final(self)@ == step_close(old(self)@).0,
            a@ == step_close(old(self)@).1,
    {
        match self.mode {
            RunMode::Development => {
                proof {
                    assert(self@ =~= step_close(old(self)@).0);
                }
                Action::Idle
            },
            RunMode::Production => match self.registry.take() {
                Some(h) => {
                    self.phase = Phase::Stopped;
                    proof {
                        assert(self@ =~= step_close(old(self)@).0);
                    }
                    Action::Kill { pid: h.pid }
                },
                None => {
                    proof {
                        assert(self@ =~= step_close(old(self)@).0);
                    }
                    Action::Idle
                },
            },
        }
    }

    /// Handles the outcome of the kill signal the host issued.
    pub fn on_kill_result(&mut self, pid: u32, ok: bool)
        ensures
            final(self)@ == step_kill_result(old(self)@, pid, ok),
    {
        let rec = if ok {
            LogRecord::KillSucceeded { pid }
        } else {
            LogRecord::KillFailed { pid }
        };
        self.log.push(rec);
        proof {
            lemma_log_view_push(old(self).log@, rec);
            assert(self@ =~= step_kill_result(old(self)@, pid, ok));
        }
    }
}

} // verus!
