use exhibition_lp_e2e::classifier::{
    classify_event, EmissionLevel, LogEntryData, LogLevel, ProtocolEvent,
};

fn entry(level: LogLevel) -> LogEntryData {
    LogEntryData {
        level,
        text: String::from("boom"),
        source: String::from("console-api"),
        url: Some(String::from("https://e.test/app.js")),
        line_number: Some(7),
        network_request_id: Some(String::from("req-1")),
    }
}

#[test]
fn error_entry_produces_one_error_emission() {
    let ev = ProtocolEvent::LogEntryAdded(entry(LogLevel::Error));
    let r = classify_event(&ev, "https://e.test");
    let em = r.expect("an error entry must be reported");
    assert_eq!(em.level, EmissionLevel::Error);
    assert_eq!(
        em.text,
        "goto_url: https://e.test; boom source: console-api; \
         url: https://e.test/app.js; line: 7; network_request_id: req-1"
    );
    assert!(em.text.contains("boom"));
    assert!(em.text.contains("https://e.test/app.js"));
}

#[test]
fn warning_entry_produces_one_warning_emission() {
    let ev = ProtocolEvent::LogEntryAdded(entry(LogLevel::Warning));
    let r = classify_event(&ev, "https://e.test");
    let em = r.expect("a warning entry must be reported");
    assert_eq!(em.level, EmissionLevel::Warning);
    assert!(em.text.contains("boom"));
}

#[test]
fn absent_url_and_line_default_to_empty_and_zero() {
    let ev = ProtocolEvent::LogEntryAdded(LogEntryData {
        level: LogLevel::Error,
        text: String::from("lost"),
        source: String::from("network"),
        url: None,
        line_number: None,
        network_request_id: None,
    });
    let r = classify_event(&ev, "https://e.test");
    let em = r.expect("an error entry must be reported");
    assert_eq!(
        em.text,
        "goto_url: https://e.test; lost source: network; url: ; line: 0; network_request_id: "
    );
}

#[test]
fn info_entry_is_silent() {
    let ev = ProtocolEvent::LogEntryAdded(entry(LogLevel::Info));
    assert!(classify_event(&ev, "https://e.test").is_none());
}

#[test]
fn verbose_entry_is_silent() {
    let ev = ProtocolEvent::LogEntryAdded(entry(LogLevel::Verbose));
    assert!(classify_event(&ev, "https://e.test").is_none());
}

#[test]
fn other_events_are_ignored() {
    assert!(classify_event(&ProtocolEvent::Other, "https://e.test").is_none());
}

#[test]
fn network_loading_failure_always_produces_one_error_emission() {
    let ev = ProtocolEvent::NetworkLoadingFailed(String::from("request-9 net::ERR_FAILED"));
    let r = classify_event(&ev, "https://e.test");
    let em = r.expect("a loading failure must be reported");
    assert_eq!(em.level, EmissionLevel::Error);
    assert_eq!(em.text, "NetworkLoadingFailed request-9 net::ERR_FAILED");
}
