use sidecar_supervisor::logging::{LogLevel, LogRecord};
use sidecar_supervisor::process::{OutputEvent, RunMode, SidecarHandle, SpawnError};
use sidecar_supervisor::supervisor::{Action, Supervisor, SPAWN_DELAY_MS};

fn production_supervisor() -> Supervisor {
    Supervisor::new(RunMode::Production, "backend".to_string())
}

#[test]
fn development_mode_never_asks_to_spawn() {
    let mut s = Supervisor::new(RunMode::Development, "backend".to_string());
    let a = s.on_setup();
    assert_eq!(a, Action::Idle);
    assert_eq!(s.log, vec![LogRecord::DevModeNoSidecar]);
    let a = s.on_close_requested();
    assert_eq!(a, Action::Idle);
    assert_eq!(s.log.len(), 1);
    assert!(s.registry.slot.is_none());
}

#[test]
fn production_setup_asks_to_spawn_after_the_delay() {
    let mut s = production_supervisor();
    let a = s.on_setup();
    assert_eq!(
        a,
        Action::SpawnBackend { name: "backend".to_string(), delay_ms: SPAWN_DELAY_MS }
    );
    assert_eq!(a, Action::SpawnBackend { name: "backend".to_string(), delay_ms: 500 });
    assert!(s.log.is_empty());
}

#[test]
fn successful_spawn_registers_handle_and_close_kills_it() {
    let mut s = production_supervisor();
    let _ = s.on_setup();
    s.on_spawn_result(Ok(SidecarHandle { pid: 4242 }));
    assert_eq!(s.registry.slot, Some(SidecarHandle { pid: 4242 }));
    assert_eq!(s.log, vec![LogRecord::SpawnedBackend { pid: 4242 }]);
    assert_eq!(s.log[0].level(), LogLevel::Info);

    let a = s.on_close_requested();
    assert_eq!(a, Action::Kill { pid: 4242 });
    assert!(s.registry.slot.is_none());

    s.on_kill_result(4242, true);
    assert_eq!(s.log[1], LogRecord::KillSucceeded { pid: 4242 });
    assert_eq!(s.log[1].level(), LogLevel::Info);

    let again = s.on_close_requested();
    assert_eq!(again, Action::Idle);
}

#[test]
fn resolution_failure_logs_one_error_and_close_is_a_noop() {
    let mut s = production_supervisor();
    let _ = s.on_setup();
    s.on_spawn_result(Err(SpawnError::Resolution));
    assert!(s.registry.slot.is_none());
    assert_eq!(s.log, vec![LogRecord::SpawnFailed { reason: SpawnError::Resolution }]);
    assert_eq!(s.log[0].level(), LogLevel::Error);

    let a = s.on_close_requested();
    assert_eq!(a, Action::Idle);
    assert_eq!(s.log.len(), 1);
    assert!(!s.log.iter().any(|r| r.level() == LogLevel::Warn));
}

#[test]
fn launch_failure_logs_one_error_and_no_kill_is_attempted() {
    let mut s = production_supervisor();
    let _ = s.on_setup();
    s.on_spawn_result(Err(SpawnError::Launch));
    assert_eq!(s.log, vec![LogRecord::SpawnFailed { reason: SpawnError::Launch }]);
    assert_eq!(s.log[0].level(), LogLevel::Error);
    assert_eq!(s.on_close_requested(), Action::Idle);
    assert_eq!(s.log.len(), 1);
}

#[test]
fn failed_kill_is_logged_as_a_warning_and_swallowed() {
    let mut s = production_supervisor();
    let _ = s.on_setup();
    s.on_spawn_result(Ok(SidecarHandle { pid: 9 }));
    let a = s.on_close_requested();
    assert_eq!(a, Action::Kill { pid: 9 });
    s.on_kill_result(9, false);
    assert_eq!(s.log[1], LogRecord::KillFailed { pid: 9 });
    assert_eq!(s.log[1].level(), LogLevel::Warn);
}

#[test]
fn close_before_spawn_completes_finds_nothing_to_kill() {
    let mut s = production_supervisor();
    let _ = s.on_setup();
    // The close request arrives while the spawn is still in flight.
    assert_eq!(s.on_close_requested(), Action::Idle);
    // The late success still registers the handle; nothing kills it later.
    s.on_spawn_result(Ok(SidecarHandle { pid: 77 }));
    assert_eq!(s.registry.slot, Some(SidecarHandle { pid: 77 }));
}

#[test]
fn spawn_error_descriptions() {
    assert_eq!(SpawnError::Resolution.describe(), "sidecar name not found");
    assert_eq!(SpawnError::Launch.describe(), "failed to spawn sidecar process");
}

#[test]
fn stdout_events_forward_one_line_each_in_order() {
    let mut s = production_supervisor();
    let _ = s.on_setup();
    s.on_spawn_result(Ok(SidecarHandle { pid: 1 }));
    let before = s.log.len();
    s.on_output_event(OutputEvent::Stdout(b"hello".to_vec()));
    s.on_output_event(OutputEvent::Stderr(b"ignored".to_vec()));
    s.on_output_event(OutputEvent::Other);
    s.on_output_event(OutputEvent::Stdout(b"world".to_vec()));
    assert_eq!(
        s.log[before..].to_vec(),
        vec![
            LogRecord::BackendOutput { line: "hello".to_string() },
            LogRecord::BackendOutput { line: "world".to_string() },
        ]
    );
    assert!(s.log[before..].iter().all(|r| r.level() == LogLevel::Info));
}

#[test]
fn invalid_utf8_is_replaced_not_rejected() {
    let mut s = production_supervisor();
    s.on_output_event(OutputEvent::Stdout(vec![0xff, b'o', b'k']));
    assert_eq!(
        s.log,
        vec![LogRecord::BackendOutput { line: "\u{FFFD}ok".to_string() }]
    );
}
