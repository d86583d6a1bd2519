use sidecar_core::event::Diagnostic;
use sidecar_core::event::ExitStatus;
use sidecar_core::event::LineEvent;
use sidecar_core::registry::PortRegistry;
use sidecar_core::supervisor::SidecarCore;

fn running_core() -> SidecarCore {
    let mut core = SidecarCore::new();
    core.start_spawn();
    core.on_spawned();
    core
}

fn clean_exit() -> ExitStatus {
    ExitStatus { code: Some(0), signal: None }
}

#[test]
fn port_absent_before_any_announcement() {
    let core = running_core();
    assert_eq!(core.get_port(), None);
}

#[test]
fn boot_scenario() {
    // Spawn succeeds, the backend logs a greeting, announces its port, and
    // terminates; the port is observed absent, absent, present, present.
    let mut core = running_core();
    assert_eq!(core.get_port(), None);

    let d = core.process_event(LineEvent::Stdout(b"Backend: booting".to_vec()));
    assert_eq!(d, Diagnostic::BackendLine(b"Backend: booting".to_vec()));
    assert_eq!(core.get_port(), None);

    let d = core.process_event(LineEvent::Stdout(b"PORT:4321".to_vec()));
    assert_eq!(d, Diagnostic::PortDiscovered(4321));
    assert_eq!(core.get_port(), Some(4321));

    let d = core.process_event(LineEvent::Terminated(clean_exit()));
    assert_eq!(d, Diagnostic::TerminatedNotice(clean_exit()));
    assert_eq!(core.get_port(), Some(4321));
}

#[test]
fn non_port_lines_leave_registry_unchanged() {
    let mut core = running_core();
    core.process_event(LineEvent::Stdout(b"listening soon".to_vec()));
    assert_eq!(core.get_port(), None);
    core.process_event(LineEvent::Stdout(b"PORT:8000".to_vec()));
    core.process_event(LineEvent::Stdout(b"just a log line".to_vec()));
    core.process_event(LineEvent::Stderr(b"PORT:9999".to_vec()));
    core.process_event(LineEvent::Error(String::from("PORT:9999")));
    core.process_event(LineEvent::Other);
    assert_eq!(core.get_port(), Some(8000));
}

#[test]
fn malformed_announcements_are_ignored() {
    let mut core = running_core();
    let d = core.process_event(LineEvent::Stdout(b"PORT:abc".to_vec()));
    assert_eq!(d, Diagnostic::Silent);
    assert_eq!(core.get_port(), None);
    let d = core.process_event(LineEvent::Stdout(b"PORT:99999".to_vec()));
    assert_eq!(d, Diagnostic::Silent);
    assert_eq!(core.get_port(), None);
}

#[test]
fn last_announcement_wins() {
    let mut core = running_core();
    core.process_event(LineEvent::Stdout(b"PORT:1024".to_vec()));
    assert_eq!(core.get_port(), Some(1024));
    core.process_event(LineEvent::Stdout(b"PORT:2048".to_vec()));
    assert_eq!(core.get_port(), Some(2048));
    core.process_event(LineEvent::Stdout(b"PORT:not a port".to_vec()));
    assert_eq!(core.get_port(), Some(2048));
}

#[test]
fn stderr_and_error_events_are_reported() {
    let mut core = running_core();
    let d = core.process_event(LineEvent::Stderr(b"warning: slow start".to_vec()));
    assert_eq!(d, Diagnostic::BackendErrorLine(b"warning: slow start".to_vec()));
    let d = core.process_event(LineEvent::Error(String::from("broken pipe")));
    assert_eq!(d, Diagnostic::CommandError(String::from("broken pipe")));
    assert_eq!(core.get_port(), None);
}

#[test]
fn kill_twice_issues_one_kill() {
    let mut core = running_core();
    assert!(core.take_for_kill());
    assert!(!core.take_for_kill());
}

#[test]
fn exit_with_port_absent() {
    // The backend never reported a port; the kill is still asked for, and
    // no port value is fabricated.
    let mut core = running_core();
    assert!(core.take_for_kill());
    assert_eq!(core.get_port(), None);
    assert!(!core.take_for_kill());
    assert_eq!(core.get_port(), None);
}

#[test]
fn exit_before_spawn_is_a_no_op() {
    let mut core = SidecarCore::new();
    assert!(!core.take_for_kill());
    assert_eq!(core.get_port(), None);
}

#[test]
fn port_survives_the_exit_path() {
    let mut core = running_core();
    core.process_event(LineEvent::Stdout(b"PORT:4321".to_vec()));
    core.process_event(LineEvent::Terminated(clean_exit()));
    assert!(core.take_for_kill());
    assert_eq!(core.get_port(), Some(4321));
}

#[test]
fn batch_matches_single_processing() {
    let mut batch_core = running_core();
    let events = vec![
        LineEvent::Stdout(b"Backend: booting".to_vec()),
        LineEvent::Stdout(b"PORT:4321".to_vec()),
        LineEvent::Stderr(b"note".to_vec()),
        LineEvent::Terminated(clean_exit()),
    ];
    let ds = batch_core.consume_events(events);
    assert_eq!(ds.len(), 4);
    assert_eq!(ds[0], Diagnostic::BackendLine(b"Backend: booting".to_vec()));
    assert_eq!(ds[1], Diagnostic::PortDiscovered(4321));
    assert_eq!(ds[2], Diagnostic::BackendErrorLine(b"note".to_vec()));
    assert_eq!(ds[3], Diagnostic::TerminatedNotice(clean_exit()));
    assert_eq!(batch_core.get_port(), Some(4321));
}

#[test]
fn registry_alone_behaves_like_a_register() {
    let mut registry = PortRegistry::new();
    assert_eq!(registry.current(), None);
    registry.publish(4321);
    assert_eq!(registry.current(), Some(4321));
    registry.publish(80);
    assert_eq!(registry.current(), Some(80));
}
