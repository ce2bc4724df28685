use torquebridge::diagnostics::{
    format_event, keep_recent, BridgeDiagnosticEvent, DiagnosticCategory, DiagnosticField,
    DiagnosticLevel, DiagnosticsLog,
};

#[test]
fn formatted_events_include_field_pairs() {
    let line = format_event(&BridgeDiagnosticEvent {
        timestamp_ms: 0,
        level: DiagnosticLevel::Error,
        category: DiagnosticCategory::Error,
        message: "Bridge apply failed".to_string(),
        fields: vec![DiagnosticField::new("command_count", "3")],
    });

    assert!(line.contains("ERROR / ERROR: Bridge apply failed"));
    assert!(line.contains("command_count=3"));
}

#[test]
fn bridge_event_field_value_reads_named_fields() {
    let event = BridgeDiagnosticEvent {
        timestamp_ms: 0,
        level: DiagnosticLevel::Info,
        category: DiagnosticCategory::Telemetry,
        message: "Runtime telemetry snapshot".to_string(),
        fields: vec![DiagnosticField::new("uptime", "1.0 s")],
    };

    assert_eq!(event.field_value("uptime"), Some("1.0 s"));
    assert_eq!(event.field_value("missing"), None);
}

#[test]
fn formatted_event_layout_is_exact() {
    let event = BridgeDiagnosticEvent {
        timestamp_ms: 5,
        level: DiagnosticLevel::Warning,
        category: DiagnosticCategory::Telemetry,
        message: "snapshot".to_string(),
        fields: vec![DiagnosticField::new("a", "1"), DiagnosticField::new("b", "two")],
    };
    assert_eq!(
        format_event(&event),
        "TELEMETRY / WARN: snapshot | a=1, b=two"
    );

    let bare = BridgeDiagnosticEvent { fields: Vec::new(), ..event };
    assert_eq!(
        format_event(&bare),
        "TELEMETRY / WARN: snapshot"
    );
}

#[test]
fn field_value_returns_the_first_matching_field() {
    let event = BridgeDiagnosticEvent {
        timestamp_ms: 0,
        level: DiagnosticLevel::Info,
        category: DiagnosticCategory::Telemetry,
        message: String::new(),
        fields: vec![DiagnosticField::new("k", "first"), DiagnosticField::new("k", "second")],
    };
    assert_eq!(event.field_value("k"), Some("first"));
}

fn event(timestamp_ms: u64) -> BridgeDiagnosticEvent {
    BridgeDiagnosticEvent {
        timestamp_ms,
        level: DiagnosticLevel::Info,
        category: DiagnosticCategory::Telemetry,
        message: String::new(),
        fields: Vec::new(),
    }
}

#[test]
fn keep_recent_keeps_the_newest_events() {
    let events: Vec<_> = (0..5).map(event).collect();
    let kept = keep_recent(events.clone(), 2);
    assert_eq!(kept.iter().map(|e| e.timestamp_ms).collect::<Vec<_>>(), vec![3, 4]);
    assert_eq!(keep_recent(events.clone(), 10), events);
}

#[test]
fn archive_dir_sits_beside_the_live_log() {
    let log = DiagnosticsLog::new("logs/bridge-diagnostics.jsonl");
    assert_eq!(log.path(), "logs/bridge-diagnostics.jsonl");
    let expected = std::path::Path::new("logs").join("bridge-diagnostics-sessions");
    assert_eq!(log.archive_dir(), expected.to_string_lossy());

    let bare = DiagnosticsLog::new("bridge-diagnostics.jsonl");
    assert_eq!(bare.archive_dir(), "bridge-diagnostics-sessions");
}
