use pomodoro_ai::timer::{
    validate_duration, validate_label, Origin, SessionStatus, TickOutcome, TimerEngine,
    TimerError, TimerEvent,
};

#[test]
fn test_start_timer() {
    let mut engine = TimerEngine::new();
    let session = engine.start(25, "Work session", Origin::Human).unwrap();
    assert_eq!(session.label, "Work session");
    assert_eq!(session.duration_secs, 25 * 60);
    assert_eq!(session.status, SessionStatus::Running);
    assert_eq!(session.origin, Origin::Human);
    assert!(session.ended_at.is_none());
}

#[test]
fn test_stop_timer() {
    let mut engine = TimerEngine::new();
    engine.start(25, "Work", Origin::Human).unwrap();
    let session = engine.stop().unwrap();
    assert_eq!(session.status, SessionStatus::Stopped);
    assert!(session.ended_at.is_some());
}

#[test]
fn test_stop_when_not_running() {
    let mut engine = TimerEngine::new();
    let result = engine.stop();
    assert!(result.is_err());
    assert!(matches!(result.unwrap_err(), TimerError::NotRunning));
}

#[test]
fn test_double_start() {
    let mut engine = TimerEngine::new();
    engine.start(25, "First", Origin::Human).unwrap();
    let result = engine.start(25, "Second", Origin::Human);
    assert!(result.is_err());
    assert!(matches!(result.unwrap_err(), TimerError::AlreadyRunning));
}

#[test]
fn test_label_validation_empty() {
    let mut engine = TimerEngine::new();
    let result = engine.start(25, "", Origin::Human);
    assert!(result.is_err());
    assert!(matches!(result.unwrap_err(), TimerError::InvalidLabel(_)));
}

#[test]
fn test_label_validation_whitespace_only() {
    let mut engine = TimerEngine::new();
    let result = engine.start(25, "   ", Origin::Human);
    assert!(result.is_err());
}

#[test]
fn test_label_validation_too_long() {
    let mut engine = TimerEngine::new();
    let long_label = "a".repeat(65);
    let result = engine.start(25, &long_label, Origin::Human);
    assert!(result.is_err());
    assert!(matches!(result.unwrap_err(), TimerError::InvalidLabel(_)));
}

#[test]
fn test_label_validation_control_chars() {
    let mut engine = TimerEngine::new();
    let result = engine.start(25, "test\x00label", Origin::Human);
    assert!(result.is_err());
}

#[test]
fn test_label_trimmed() {
    let mut engine = TimerEngine::new();
    let session = engine.start(25, "  Work  ", Origin::Human).unwrap();
    assert_eq!(session.label, "Work");
}

#[test]
fn test_duration_validation_zero() {
    let mut engine = TimerEngine::new();
    let result = engine.start(0, "Work", Origin::Human);
    assert!(result.is_err());
    assert!(matches!(result.unwrap_err(), TimerError::InvalidDuration));
}

#[test]
fn test_duration_validation_too_large() {
    let mut engine = TimerEngine::new();
    let result = engine.start(1441, "Work", Origin::Human);
    assert!(result.is_err());
    assert!(matches!(result.unwrap_err(), TimerError::InvalidDuration));
}

#[test]
fn test_get_status_idle() {
    let engine = TimerEngine::new();
    let status = engine.get_status();
    assert!(!status.is_running);
    assert!(status.session.is_none());
    assert_eq!(status.remaining_secs, 0);
}

#[test]
fn test_get_status_running() {
    let mut engine = TimerEngine::new();
    engine.start(25, "Work", Origin::Human).unwrap();
    let status = engine.get_status();
    assert!(status.is_running);
    assert!(status.session.is_some());
    assert_eq!(status.remaining_secs, 25 * 60);
}

#[test]
fn test_events_on_start() {
    let mut engine = TimerEngine::new();
    engine.start(25, "Work", Origin::Human).unwrap();
    let events = engine.take_events();
    let event = events[0].clone();
    assert!(matches!(event, TimerEvent::Started { .. }));
}

#[test]
fn test_events_on_stop() {
    let mut engine = TimerEngine::new();
    engine.start(25, "Work", Origin::Human).unwrap();
    let _ = engine.take_events(); // Started
    engine.stop().unwrap();
    let events = engine.take_events();
    let event = events[0].clone();
    assert!(matches!(event, TimerEvent::Stopped { .. }));
}

#[test]
fn test_tick_events() {
    let mut engine = TimerEngine::new();
    engine.start(1, "Quick", Origin::Human).unwrap();
    let _ = engine.take_events(); // Started
    let token = engine.scheduler_token().unwrap();

    engine.tick(token);

    // Should get a tick or completion
    let event = engine.take_events()[0].clone();
    match event {
        TimerEvent::Tick { remaining_secs, .. } => {
            assert!(remaining_secs < 60);
        }
        TimerEvent::Completed { .. } => {
            // 1-minute timer might complete quickly in test
        }
        _ => panic!("Expected Tick or Completed event"),
    }
}

#[test]
fn test_restart_after_stop() {
    let mut engine = TimerEngine::new();
    engine.start(25, "First", Origin::Human).unwrap();
    engine.stop().unwrap();
    let session = engine.start(15, "Second", Origin::Agent).unwrap();
    assert_eq!(session.label, "Second");
    assert_eq!(session.origin, Origin::Agent);
}

#[test]
fn test_agent_origin() {
    let mut engine = TimerEngine::new();
    let session = engine.start(25, "AI Task", Origin::Agent).unwrap();
    assert_eq!(session.origin, Origin::Agent);
}

#[test]
fn test_valid_uuid() {
    let mut engine = TimerEngine::new();
    let session = engine.start(25, "Work", Origin::Human).unwrap();
    assert!(uuid::Uuid::parse_str(&session.id).is_ok());
}

#[test]
fn start_with_uses_given_id_and_time() {
    let mut engine = TimerEngine::new();
    let s = engine
        .start_with(2, " Read ", Origin::Agent, "id-1".to_string(), "2024-01-01T10:00:00Z".to_string())
        .unwrap();
    assert_eq!(s.id, "id-1");
    assert_eq!(s.label, "Read");
    assert_eq!(s.duration_secs, 120);
    assert_eq!(s.started_at, "2024-01-01T10:00:00Z");
    assert_eq!(s.status, SessionStatus::Running);
}

#[test]
fn start_is_exclusive_until_stop() {
    let mut engine = TimerEngine::new();
    assert!(engine.start(1, "One", Origin::Human).is_ok());
    for minutes in [1u32, 25, 1440] {
        assert!(matches!(
            engine.start(minutes, "Other", Origin::Agent),
            Err(TimerError::AlreadyRunning)
        ));
    }
    assert_eq!(engine.get_status().session.unwrap().label, "One");
    engine.stop().unwrap();
    assert!(engine.start(1440, "Two", Origin::Agent).is_ok());
}

#[test]
fn many_starts_one_success() {
    let mut engine = TimerEngine::new();
    let results: Vec<_> = (0..8).map(|i| engine.start(5, &format!("caller {i}"), Origin::Agent)).collect();
    assert!(results[0].is_ok());
    assert_eq!(results.iter().filter(|r| r.is_ok()).count(), 1);
    assert!(results[1..].iter().all(|r| matches!(r, Err(TimerError::AlreadyRunning))));
}

#[test]
fn stop_idle_changes_nothing() {
    let mut engine = TimerEngine::new();
    assert!(matches!(engine.stop(), Err(TimerError::NotRunning)));
    let status = engine.get_status();
    assert!(!status.is_running);
    assert_eq!(status.remaining_secs, 0);
    assert!(engine.take_events().is_empty());
}

#[test]
fn one_minute_session_completes_once() {
    let mut engine = TimerEngine::new();
    engine.start(1, "Quick", Origin::Human).unwrap();
    let token = engine.scheduler_token().unwrap();
    let mut outcomes = Vec::new();
    for _ in 0..70 {
        outcomes.push(engine.tick(token));
    }
    assert!(outcomes[..59].iter().all(|o| *o == TickOutcome::Continue));
    assert_eq!(outcomes[59], TickOutcome::Finished);
    assert!(outcomes[60..].iter().all(|o| *o == TickOutcome::Cancelled));
    let events = engine.take_events();
    assert_eq!(events.len(), 61);
    assert!(matches!(events[0], TimerEvent::Started { .. }));
    let completed: Vec<_> = events.iter().filter(|e| matches!(e, TimerEvent::Completed { .. })).collect();
    assert_eq!(completed.len(), 1);
    match &events[60] {
        TimerEvent::Completed { session } => {
            assert_eq!(session.status, SessionStatus::Completed);
            assert!(session.ended_at.is_some());
            assert_eq!(session.duration_secs, 60);
        }
        _ => panic!("last event is not the completion"),
    }
    match &events[1] {
        TimerEvent::Tick { remaining_secs, .. } => assert_eq!(*remaining_secs, 59),
        _ => panic!("second event is not a tick"),
    }
    assert!(!engine.get_status().is_running);
}

#[test]
fn stale_scheduler_is_cancelled() {
    let mut engine = TimerEngine::new();
    engine.start(1, "First", Origin::Human).unwrap();
    let old_token = engine.scheduler_token().unwrap();
    engine.stop().unwrap();
    assert_eq!(engine.scheduler_token(), None);
    engine.start(1, "Second", Origin::Human).unwrap();
    let _ = engine.take_events();
    assert_eq!(engine.tick(old_token), TickOutcome::Cancelled);
    assert!(engine.take_events().is_empty());
    assert_eq!(engine.get_status().remaining_secs, 60);
}

#[test]
fn stop_reports_final_snapshot() {
    let mut engine = TimerEngine::new();
    let started = engine.start(3, "Deep work", Origin::Agent).unwrap();
    let token = engine.scheduler_token().unwrap();
    engine.tick(token);
    let stopped = engine.stop_at("2024-01-01T10:05:00Z".to_string()).unwrap();
    assert_eq!(stopped.id, started.id);
    assert_eq!(stopped.label, "Deep work");
    assert_eq!(stopped.duration_secs, 180);
    assert_eq!(stopped.ended_at.as_deref(), Some("2024-01-01T10:05:00Z"));
    assert_eq!(stopped.status, SessionStatus::Stopped);
    assert_eq!(engine.get_status().remaining_secs, 0);
}

#[test]
fn label_rules() {
    assert_eq!(validate_label("\t Focus \n").unwrap(), "Focus");
    assert_eq!(validate_label(&"é".repeat(64)).unwrap(), "é".repeat(64));
    assert!(matches!(validate_label(&"b".repeat(65)), Err(TimerError::InvalidLabel(_))));
    assert!(matches!(validate_label("a\u{7f}b"), Err(TimerError::InvalidLabel(_))));
    assert!(matches!(validate_label("a\u{85}b"), Err(TimerError::InvalidLabel(_))));
    assert!(matches!(validate_label("a\u{9f}b"), Err(TimerError::InvalidLabel(_))));
    assert_eq!(validate_label("\u{3000}x\u{3000}").unwrap(), "x");
}

#[test]
fn duration_rules() {
    assert_eq!(validate_duration(1).unwrap(), 60);
    assert_eq!(validate_duration(1440).unwrap(), 86400);
    assert!(matches!(validate_duration(0), Err(TimerError::InvalidDuration)));
    assert!(matches!(validate_duration(u32::MAX), Err(TimerError::InvalidDuration)));
}

#[test]
fn display_names() {
    assert_eq!(Origin::Human.name(), "human");
    assert_eq!(Origin::Agent.name(), "agent");
    assert_eq!(SessionStatus::Running.name(), "running");
    assert_eq!(SessionStatus::Completed.name(), "completed");
    assert_eq!(SessionStatus::Stopped.name(), "stopped");
}
