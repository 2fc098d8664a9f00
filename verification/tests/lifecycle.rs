use arti_mobile::{
    arti_get_socks_port, arti_get_state, arti_is_running, arti_start, arti_stop,
    configure_and_run_arti_proxy, init_log_subscriber, start_arti_proxy, stop_arti_proxy,
    ArtiState, LogLevel, LogLine, SessionAction, SessionEvent, SessionPhase,
};

fn sink(_record: &[u8]) {}

const ALL_STATES: [ArtiState; 6] = [
    ArtiState::Uninitialized,
    ArtiState::Initialized,
    ArtiState::Starting,
    ArtiState::Running,
    ArtiState::Stopping,
    ArtiState::Stopped,
];

fn info(text: &str) -> LogLine {
    LogLine { level: LogLevel::Info, text: text.to_string() }
}

fn warn(text: &str) -> LogLine {
    LogLine { level: LogLevel::Warn, text: text.to_string() }
}

#[test]
fn state_names_are_the_six_defined_values() {
    let names: Vec<String> = ALL_STATES.iter().map(|s| s.to_string()).collect();
    assert_eq!(
        names,
        vec!["Uninitialized", "Initialized", "Starting", "Running", "Stopping", "Stopped"]
    );
    for s in ALL_STATES {
        assert_eq!(s.name(), s.to_string());
        assert_eq!(arti_get_state(Some(s)), s.name());
    }
}

#[test]
fn state_query_reports_unknown_without_guard() {
    assert_eq!(arti_get_state(None), "Unknown");
}

#[test]
fn state_query_never_leaves_the_known_names() {
    let known = [
        "Uninitialized",
        "Initialized",
        "Starting",
        "Running",
        "Stopping",
        "Stopped",
        "Unknown",
    ];
    let mut cells: Vec<Option<ArtiState>> = ALL_STATES.iter().map(|s| Some(*s)).collect();
    cells.push(None);
    for cell in cells {
        let name = arti_get_state(cell);
        assert!(known.contains(&name.as_str()));
    }
}

#[test]
fn is_running_is_one_only_when_running() {
    for s in ALL_STATES {
        let expected = if s == ArtiState::Running { 1 } else { 0 };
        assert_eq!(arti_is_running(Some(s)), expected);
    }
    assert_eq!(arti_is_running(None), 0);
}

#[test]
fn socks_port_query_reports_every_port() {
    assert_eq!(arti_get_socks_port(Some(0)), 0);
    assert_eq!(arti_get_socks_port(Some(9050)), 9050);
    assert_eq!(arti_get_socks_port(Some(65535)), 65535);
    assert_eq!(arti_get_socks_port(None), 0);
    for p in 0..=u16::MAX {
        assert_eq!(arti_get_socks_port(Some(p)), i32::from(p));
    }
}

#[test]
fn first_start_binds_sink_and_starts() {
    let mut state = Some(ArtiState::Uninitialized);
    let mut port = Some(0u16);
    let report = arti_start(&mut state, &mut port, Some("/tmp/a"), Some("/tmp/b"), 9050, sink);
    assert_eq!(report.message, "OK: Arti starting on port 9050");
    assert!(report.message.starts_with("OK:"));
    assert_eq!(state, Some(ArtiState::Starting));
    assert_eq!(port, Some(9050));
    assert!(report.writer.is_some());
    assert_eq!(report.lines, vec![info("[ARTI] Initialized"), info("[ARTI] Starting...")]);
    let session = report.session.expect("an accepted start hands out a session");
    assert_eq!(session.phase(), SessionPhase::CreatingRuntime);
    assert_eq!(session.state_dir(), "/tmp/a");
    assert_eq!(session.cache_dir(), "/tmp/b");
    assert_eq!(session.socks_port(), 9050);
    assert_eq!(session.pending_action(), SessionAction::CreateRuntime);
    assert_eq!(session.failure(), None);
}

#[test]
fn scenario_start_while_uninitialized_reaches_running() {
    let mut state = Some(ArtiState::Uninitialized);
    let mut port = Some(0u16);
    let report = arti_start(&mut state, &mut port, Some("/tmp/a"), Some("/tmp/b"), 9050, sink);
    assert!(report.message.starts_with("OK:"));
    assert_eq!(arti_get_state(state), "Starting");
    assert_eq!(arti_is_running(state), 0);
    let mut session = report.session.unwrap();
    let events = [
        SessionEvent::RuntimeCreated,
        SessionEvent::ConfigBuilt,
        SessionEvent::ClientConstructed,
        SessionEvent::ObserversRegistered,
    ];
    for event in events {
        let directive = session.step(&mut state, port, event).expect("awaited");
        assert_eq!(directive.line, None);
        assert_eq!(arti_get_state(state), "Starting");
    }
    assert_eq!(session.pending_action(), SessionAction::Race { with_protocol: true });
    let directive = session.step(&mut state, port, SessionEvent::Bootstrapped).unwrap();
    assert_eq!(
        directive.line,
        Some(info("[ARTI] Bootstrap complete, proxy ready on port 9050"))
    );
    assert_eq!(directive.action, SessionAction::Sleep { millis: 200 });
    assert_eq!(arti_get_state(state), "Running");
    assert_eq!(arti_is_running(state), 1);
    assert_eq!(arti_get_socks_port(port), 9050);
}

#[test]
fn scenario_second_start_while_starting_creates_no_session() {
    let mut state = Some(ArtiState::Uninitialized);
    let mut port = Some(0u16);
    let first = arti_start(&mut state, &mut port, Some("/tmp/a"), Some("/tmp/b"), 9050, sink);
    assert!(first.session.is_some());
    assert_eq!(state, Some(ArtiState::Starting));

    let second = arti_start(&mut state, &mut port, Some("/tmp/c"), Some("/tmp/d"), 9150, sink);
    assert_eq!(second.message, "OK: Arti starting on port 9150");
    assert!(second.message.starts_with("OK:"));
    assert!(second.session.is_none());
    assert!(second.writer.is_none());
    assert_eq!(second.lines, vec![warn("[ARTI] Cannot start from state: Starting")]);
    assert_eq!(state, Some(ArtiState::Starting));
    assert_eq!(port, Some(9050));

    // Only the one session exists, so bootstrap completion is logged once.
    let mut session = first.session.unwrap();
    let mut completions = 0;
    let events = [
        SessionEvent::RuntimeCreated,
        SessionEvent::ConfigBuilt,
        SessionEvent::ClientConstructed,
        SessionEvent::ObserversRegistered,
        SessionEvent::Bootstrapped,
        SessionEvent::PollElapsed,
    ];
    for event in events {
        let directive = session.step(&mut state, port, event).unwrap();
        if let Some(line) = directive.line {
            if line.text.starts_with("[ARTI] Bootstrap complete") {
                completions += 1;
            }
        }
    }
    assert_eq!(completions, 1);
}

#[test]
fn scenario_null_state_dir_is_an_error_and_touches_nothing() {
    for s in ALL_STATES {
        let mut state = Some(s);
        let mut port = Some(1234u16);
        let report = arti_start(&mut state, &mut port, None, Some("/tmp/b"), 9050, sink);
        assert_eq!(report.message, "Error: null state_dir");
        assert!(report.message.starts_with("Error:"));
        assert_eq!(state, Some(s));
        assert_eq!(port, Some(1234));
        assert!(report.session.is_none());
        assert!(report.writer.is_none());
        assert!(report.lines.is_empty());
    }
}

#[test]
fn null_cache_dir_is_an_error_and_touches_nothing() {
    let mut state = Some(ArtiState::Uninitialized);
    let mut port = Some(0u16);
    let report = arti_start(&mut state, &mut port, Some("/tmp/a"), None, 9050, sink);
    assert_eq!(report.message, "Error: null cache_dir");
    assert_eq!(state, Some(ArtiState::Uninitialized));
    assert_eq!(port, Some(0));
    assert!(report.session.is_none());
    assert!(report.writer.is_none());
    assert!(report.lines.is_empty());
}

#[test]
fn both_dirs_null_reports_state_dir_first() {
    let mut state: Option<ArtiState> = None;
    let mut port: Option<u16> = None;
    let report = arti_start(&mut state, &mut port, None, None, 1, sink);
    assert_eq!(report.message, "Error: null state_dir");
    assert_eq!(state, None);
    assert_eq!(port, None);
}

#[test]
fn start_is_taken_up_from_initialized_and_stopped() {
    for s in [ArtiState::Initialized, ArtiState::Stopped] {
        let mut state = Some(s);
        let mut port = Some(1u16);
        let report = arti_start(&mut state, &mut port, Some("s"), Some("c"), 4000, sink);
        assert_eq!(report.message, "OK: Arti starting on port 4000");
        assert_eq!(state, Some(ArtiState::Starting));
        assert_eq!(port, Some(4000));
        assert!(report.session.is_some());
        assert!(report.writer.is_none());
        assert_eq!(report.lines, vec![info("[ARTI] Starting...")]);
    }
}

#[test]
fn start_in_flight_is_a_success_shaped_no_op() {
    for s in [ArtiState::Starting, ArtiState::Running, ArtiState::Stopping] {
        let mut state = Some(s);
        let mut port = Some(7u16);
        let report = arti_start(&mut state, &mut port, Some("s"), Some("c"), 4000, sink);
        assert_eq!(report.message, "OK: Arti starting on port 4000");
        assert_eq!(state, Some(s));
        assert_eq!(port, Some(7));
        assert!(report.session.is_none());
        assert!(report.writer.is_none());
        assert_eq!(
            report.lines,
            vec![warn(&format!("[ARTI] Cannot start from state: {}", s.name()))]
        );
    }
}

#[test]
fn start_without_state_guard_does_nothing_but_reports_success() {
    let mut state: Option<ArtiState> = None;
    let mut port = Some(7u16);
    let report = arti_start(&mut state, &mut port, Some("s"), Some("c"), 4000, sink);
    assert_eq!(report.message, "OK: Arti starting on port 4000");
    assert_eq!(state, None);
    assert_eq!(port, Some(7));
    assert!(report.session.is_none());
    assert!(report.writer.is_none());
    assert!(report.lines.is_empty());
}

#[test]
fn start_without_port_guard_still_starts() {
    let mut state = Some(ArtiState::Stopped);
    let mut port: Option<u16> = None;
    let report = arti_start(&mut state, &mut port, Some("s"), Some("c"), 4000, sink);
    assert_eq!(state, Some(ArtiState::Starting));
    assert_eq!(port, None);
    assert_eq!(arti_get_socks_port(port), 0);
    let session = report.session.unwrap();
    assert_eq!(session.socks_port(), 4000);
}

#[test]
fn start_message_holds_the_port_in_decimal() {
    let cases: [(u16, &str); 7] = [
        (0, "Arti starting on port 0"),
        (7, "Arti starting on port 7"),
        (10, "Arti starting on port 10"),
        (100, "Arti starting on port 100"),
        (9050, "Arti starting on port 9050"),
        (60009, "Arti starting on port 60009"),
        (65535, "Arti starting on port 65535"),
    ];
    for (p, expected) in cases {
        let mut state = Some(ArtiState::Running);
        let mut port = Some(0u16);
        let report = start_arti_proxy(&mut state, &mut port, "s", "c", p, sink);
        assert_eq!(report.message, expected);
    }
}

#[test]
fn start_message_matches_std_formatting_for_every_port() {
    for p in 0..=u16::MAX {
        let mut state: Option<ArtiState> = None;
        let mut port: Option<u16> = None;
        let report = start_arti_proxy(&mut state, &mut port, "s", "c", p, sink);
        assert_eq!(report.message, format!("Arti starting on port {}", p));
    }
}

#[test]
fn init_log_subscriber_binds_once() {
    let mut state = Some(ArtiState::Uninitialized);
    let first = init_log_subscriber(&mut state, sink);
    assert!(first.writer.is_some());
    assert_eq!(first.line, Some(info("[ARTI] Initialized")));
    assert_eq!(state, Some(ArtiState::Initialized));

    let second = init_log_subscriber(&mut state, sink);
    assert!(second.writer.is_none());
    assert_eq!(second.line, None);
    assert_eq!(state, Some(ArtiState::Initialized));

    for s in ALL_STATES {
        if s != ArtiState::Uninitialized {
            let mut state = Some(s);
            let binding = init_log_subscriber(&mut state, sink);
            assert!(binding.writer.is_none());
            assert_eq!(state, Some(s));
        }
    }
    let mut none: Option<ArtiState> = None;
    assert!(init_log_subscriber(&mut none, sink).writer.is_none());
    assert_eq!(none, None);
}

#[test]
fn configure_rejects_uninitialized() {
    let mut state = Some(ArtiState::Uninitialized);
    let mut port = Some(5u16);
    let launch = configure_and_run_arti_proxy(&mut state, &mut port, "s", "c", 9050);
    assert!(launch.session.is_none());
    assert_eq!(launch.line, Some(warn("[ARTI] Cannot start from state: Uninitialized")));
    assert_eq!(state, Some(ArtiState::Uninitialized));
    assert_eq!(port, Some(5));
}

#[test]
fn stop_while_running_becomes_stopping() {
    let mut state = Some(ArtiState::Running);
    let line = arti_stop(&mut state);
    assert_eq!(state, Some(ArtiState::Stopping));
    assert_eq!(line, Some(info("[ARTI] Stopping...")));
}

#[test]
fn stop_elsewhere_is_a_no_op() {
    for s in ALL_STATES {
        if s != ArtiState::Running {
            let mut state = Some(s);
            assert_eq!(arti_stop(&mut state), None);
            assert_eq!(state, Some(s));
            assert_eq!(stop_arti_proxy(&mut state), None);
            assert_eq!(state, Some(s));
        }
    }
    let mut none: Option<ArtiState> = None;
    assert_eq!(arti_stop(&mut none), None);
    assert_eq!(none, None);
}

#[test]
fn stop_then_poll_reaches_stopped_and_restart_is_accepted() {
    let mut state = Some(ArtiState::Initialized);
    let mut port = Some(0u16);
    let report = arti_start(&mut state, &mut port, Some("s"), Some("c"), 9050, sink);
    let mut session = report.session.unwrap();
    for event in [
        SessionEvent::RuntimeCreated,
        SessionEvent::ConfigBuilt,
        SessionEvent::ClientConstructed,
        SessionEvent::ObserversRegistered,
        SessionEvent::Bootstrapped,
    ] {
        session.step(&mut state, port, event).unwrap();
    }
    // Polls that find no stop request keep polling.
    for _ in 0..3 {
        let d = session.step(&mut state, port, SessionEvent::PollElapsed).unwrap();
        assert_eq!(d.action, SessionAction::Sleep { millis: 200 });
        assert_eq!(d.line, None);
        assert_eq!(state, Some(ArtiState::Running));
    }
    arti_stop(&mut state);
    assert_eq!(state, Some(ArtiState::Stopping));
    // One poll interval later the session notices.
    let d = session.step(&mut state, port, SessionEvent::PollElapsed).unwrap();
    assert_eq!(d.action, SessionAction::ReleaseObservers);
    assert_eq!(d.line, Some(info("[ARTI] Stop requested")));
    assert_eq!(state, Some(ArtiState::Stopping));
    let d = session.step(&mut state, port, SessionEvent::ObserversReleased).unwrap();
    assert_eq!(d.action, SessionAction::Exit);
    assert_eq!(d.line, Some(info("[ARTI] Stopped")));
    assert_eq!(state, Some(ArtiState::Stopped));
    assert!(session.is_finished());
    // The port is kept after the stop.
    assert_eq!(arti_get_socks_port(port), 9050);

    let again = arti_start(&mut state, &mut port, Some("s"), Some("c"), 9051, sink);
    assert!(again.session.is_some());
    assert_eq!(state, Some(ArtiState::Starting));
    assert_eq!(arti_get_socks_port(port), 9051);
}
