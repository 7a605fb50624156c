//! Laws of the supervisor, stated over the specification-level machine:
//! what whole runs — arbitrary event sequences — guarantee, beyond what
//! each single transition promises.

use vstd::prelude::*;
use crate::logging::{LogLevel, LogRecordView, level_of, lossy_decode};
use crate::process::{OutputEventView, RunMode, SidecarHandle, SpawnError};
use crate::supervisor::{ActionView, EventView, Phase, SupervisorView, step, step_close,
    step_output, step_spawn_result};

verus! {

/// The state after a sequence of events, applied in order.
pub open spec fn run_steps(m: SupervisorView, evs: Seq<EventView>) -> SupervisorView
    decreases evs.len(),
{
    if evs.len() == 0 {
        m
    } else {
        run_steps(step(m, evs[0]).0, evs.drop_first())
    }
}

/// The actions a sequence of events asks the host to perform, in order.
pub open spec fn actions_of(m: SupervisorView, evs: Seq<EventView>) -> Seq<ActionView>
    decreases evs.len(),
{
    if evs.len() == 0 {
        Seq::empty()
    } else {
        seq![step(m, evs[0]).1] + actions_of(step(m, evs[0]).0, evs.drop_first())
    }
}

/// No transition changes the run mode or the sidecar name.
pub proof fn lemma_step_preserves_mode(m: SupervisorView, e: EventView)
    ensures
        step(m, e).0.mode == m.mode,
        step(m, e).0.name == m.name,
{
}

/// In development mode no sequence of events ever produces a spawn action:
/// the supervisor records zero process-creation side effects.
pub proof fn lemma_development_never_spawns(m: SupervisorView, evs: Seq<EventView>)
    requires
        m.mode == RunMode::Development,
    ensures
        forall|i: int|
            0 <= i < actions_of(m, evs).len() ==> !(#[trigger] actions_of(m, evs)[i]
                is SpawnBackend),
    decreases evs.len(),
{
    if evs.len() > 0 {
        lemma_step_preserves_mode(m, evs[0]);
        lemma_development_never_spawns(step(m, evs[0]).0, evs.drop_first());
    }
}

/// Whether an event is an outcome the host reports back after performing an
/// action. In development mode no action is ever issued, so no such event
/// can occur.
pub open spec fn is_action_outcome(e: EventView) -> bool {
    e is SpawnResult || e is KillResult
}

/// Development mode never leaves the initial phase: under the events the
/// host can deliver in that mode — anything but action outcomes — the phase
/// stays as it was and the registry stays empty.
pub proof fn lemma_development_stays_put(m: SupervisorView, evs: Seq<EventView>)
    requires
        m.mode == RunMode::Development,
        forall|i: int| 0 <= i < evs.len() ==> !is_action_outcome(#[trigger] evs[i]),
    ensures
        run_steps(m, evs).phase == m.phase,
        run_steps(m, evs).slot == m.slot,
    decreases evs.len(),
{
    if evs.len() > 0 {
        lemma_step_preserves_mode(m, evs[0]);
        assert(forall|i: int|
            0 <= i < evs.drop_first().len() ==> !is_action_outcome(
                #[trigger] evs.drop_first()[i],
            ));
        lemma_development_stays_put(step(m, evs[0]).0, evs.drop_first());
    }
}

/// Output events decide nothing: relaying touches only the log.
pub proof fn lemma_output_preserves_state(m: SupervisorView, ev: OutputEventView)
    ensures
        step_output(m, ev).mode == m.mode,
        step_output(m, ev).phase == m.phase,
        step_output(m, ev).slot == m.slot,
        step_output(m, ev).name == m.name,
{
}

/// A run of nothing but output events leaves mode, phase and registry as
/// they were.
pub proof fn lemma_outputs_preserve_state(m: SupervisorView, outs: Seq<OutputEventView>)
    ensures
        run_steps(m, outs.map_values(|o: OutputEventView| EventView::Output(o))).mode == m.mode,
        run_steps(m, outs.map_values(|o: OutputEventView| EventView::Output(o))).phase == m.phase,
        run_steps(m, outs.map_values(|o: OutputEventView| EventView::Output(o))).slot == m.slot,
    decreases outs.len(),
{
    let evs = outs.map_values(|o: OutputEventView| EventView::Output(o));
    if outs.len() > 0 {
        assert(evs.drop_first() =~= outs.drop_first().map_values(
            |o: OutputEventView| EventView::Output(o),
        ));
        lemma_output_preserves_state(m, outs[0]);
        lemma_outputs_preserve_state(step(m, evs[0]).0, outs.drop_first());
    }
}

/// In production mode a successful spawn registers the handle at once —
/// before the relay consumes a single event — the registration survives any
/// run of output events, and the close request that follows issues exactly
/// one kill, to that handle's process ID: the slot is drained, and a second
/// close request asks for nothing.
pub proof fn lemma_spawn_success_then_close_kills(
    m: SupervisorView,
    h: SidecarHandle,
    outs: Seq<OutputEventView>,
)
    requires
        m.mode == RunMode::Production,
    ensures
        ({
            let registered = step_spawn_result(m, Ok(h));
            let relayed = run_steps(
                registered,
                outs.map_values(|o: OutputEventView| EventView::Output(o)),
            );
            let closed = step_close(relayed);
            &&& registered.slot == Some(h)
            &&& relayed.slot == Some(h)
            &&& closed.1 == ActionView::Kill { pid: h.pid }
            &&& closed.0.slot is None
            &&& closed.0.phase == Phase::Stopped
            &&& step_close(closed.0).1 == ActionView::Idle
        }),
{
    let registered = step_spawn_result(m, Ok(h));
    lemma_outputs_preserve_state(registered, outs);
}

/// A failed spawn leaves the registry empty and appends exactly one record,
/// at error severity; a close request after it performs zero kill attempts
/// and logs nothing further — no warning beyond the original spawn error.
pub proof fn lemma_spawn_failure_close_is_noop(m: SupervisorView, e: SpawnError)
    requires
        m.slot is None,
    ensures
        ({
            let failed = step_spawn_result(m, Err(e));
            let closed = step_close(failed);
            &&& failed.slot is None
            &&& failed.phase == m.phase
            &&& failed.log == m.log.push(LogRecordView::SpawnFailed { reason: e })
            &&& level_of(LogRecordView::SpawnFailed { reason: e }) == LogLevel::Error
            &&& closed.1 == ActionView::Idle
            &&& closed.0.log == failed.log
            &&& closed.0.slot is None
        }),
{
}

/// The records a run of output events forwards: one informational line per
/// standard-output event, the lossy decoding of its bytes, in arrival
/// order; standard error and other kinds contribute nothing.
pub open spec fn forwarded_records(outs: Seq<OutputEventView>) -> Seq<LogRecordView>
    decreases outs.len(),
{
    if outs.len() == 0 {
        Seq::empty()
    } else {
        match outs[0] {
            OutputEventView::Stdout(bytes) => seq![
                LogRecordView::BackendOutput { line: lossy_decode(bytes) },
            ] + forwarded_records(outs.drop_first()),
            _ => forwarded_records(outs.drop_first()),
        }
    }
}

/// Every forwarded record is a backend-output line at informational
/// severity.
pub proof fn lemma_forwarded_records_are_info(outs: Seq<OutputEventView>)
    ensures
        forall|i: int|
            0 <= i < forwarded_records(outs).len() ==> (#[trigger] forwarded_records(outs)[i]
                is BackendOutput && level_of(forwarded_records(outs)[i]) == LogLevel::Info),
    decreases outs.len(),
{
    if outs.len() > 0 {
        lemma_forwarded_records_are_info(outs.drop_first());
    }
}

/// Relaying a run of output events appends exactly the forwarded records —
/// one log line per standard-output event, in arrival order, none for any
/// other kind — and nothing else.
pub proof fn lemma_relay_forwards_stdout_in_order(m: SupervisorView, outs: Seq<OutputEventView>)
    ensures
        run_steps(m, outs.map_values(|o: OutputEventView| EventView::Output(o))).log == m.log
            + forwarded_records(outs),
    decreases outs.len(),
{
    let evs = outs.map_values(|o: OutputEventView| EventView::Output(o));
    if outs.len() == 0 {
        assert(m.log + forwarded_records(outs) =~= m.log);
    } else {
        assert(evs.drop_first() =~= outs.drop_first().map_values(
            |o: OutputEventView| EventView::Output(o),
        ));
        let m1 = step(m, evs[0]).0;
        lemma_relay_forwards_stdout_in_order(m1, outs.drop_first());
        assert(m1.log + forwarded_records(outs.drop_first()) =~= m.log + forwarded_records(outs));
    }
}

} // verus!
