use iracing_ha_monitor::payload::{
    config_topic, discovery_payload, parse_state_payload, state_payload, state_topic,
};
use iracing_ha_monitor::sim_monitor::{SessionType, SimMonitorState};

fn state(connected: bool, st: SessionType, ts: &str) -> SimMonitorState {
    SimMonitorState { connected, current_session_type: st, timestamp: String::from(ts) }
}

#[test]
fn topics_are_fixed() {
    assert_eq!(state_topic(), "homeassistant/sensor/iracing/state");
    assert_eq!(config_topic(), "homeassistant/sensor/iracing/config");
}

#[test]
fn state_payload_exact_text() {
    let s = state(true, SessionType::Practice, "2024-01-01T00:00:00+00:00");
    assert_eq!(
        state_payload(&s),
        "{\"connected\":true,\"current_session_type\":\"Practice\",\"timestamp\":\"2024-01-01T00:00:00+00:00\"}"
    );
    let s = state(false, SessionType::Disconnected, "t");
    assert_eq!(
        state_payload(&s),
        "{\"connected\":false,\"current_session_type\":\"Disconnected\",\"timestamp\":\"t\"}"
    );
}

#[test]
fn state_payload_is_valid_json_with_expected_fields() {
    let s = state(true, SessionType::LoneQualify, "2024-06-30T12:34:56.789+00:00");
    let text = state_payload(&s);
    let value: serde_json::Value = serde_json::from_str(&text).expect("payload must be JSON");
    assert_eq!(value.get("connected"), Some(&serde_json::Value::Bool(true)));
    assert_eq!(
        value.get("current_session_type").and_then(|v| v.as_str()),
        Some("Lone Qualify")
    );
    assert_eq!(
        value.get("timestamp").and_then(|v| v.as_str()),
        Some("2024-06-30T12:34:56.789+00:00")
    );
}

#[test]
fn state_payload_round_trips_every_session_type() {
    let all = [
        SessionType::Disconnected,
        SessionType::Practice,
        SessionType::Qualify,
        SessionType::Race,
        SessionType::LoneQualify,
        SessionType::OfflineTesting,
    ];
    for st in all {
        let original = state(true, st, "2024-01-02T03:04:05+00:00");
        let text = state_payload(&original);
        let parsed = parse_state_payload(&text).expect("round trip must parse");
        assert!(parsed == original);
        let original = state(false, SessionType::Disconnected, "2024-01-02T03:04:05+00:00");
        let text = state_payload(&original);
        let parsed = parse_state_payload(&text).expect("round trip must parse");
        assert!(parsed == original);
    }
}

#[test]
fn parse_rejects_malformed_payloads() {
    assert!(parse_state_payload("").is_none());
    assert!(parse_state_payload("{}").is_none());
    assert!(parse_state_payload("{\"connected\":yes,\"current_session_type\":\"Race\",\"timestamp\":\"t\"}").is_none());
    // An unrecognized session label is not a valid payload.
    assert!(parse_state_payload("{\"connected\":true,\"current_session_type\":\"Warmup\",\"timestamp\":\"t\"}").is_none());
    // Unterminated timestamp string.
    assert!(parse_state_payload("{\"connected\":true,\"current_session_type\":\"Race\",\"timestamp\":\"t").is_none());
    // Trailing garbage after the closing brace.
    assert!(parse_state_payload("{\"connected\":true,\"current_session_type\":\"Race\",\"timestamp\":\"t\"} ").is_none());
    // A control character inside the string body.
    assert!(parse_state_payload("{\"connected\":true,\"current_session_type\":\"Race\",\"timestamp\":\"a\nb\"}").is_none());
}

#[test]
fn parse_accepts_what_it_wrote_only_in_this_field_order() {
    // The parser reads exactly the documents this library writes.
    let reordered = "{\"current_session_type\":\"Race\",\"connected\":true,\"timestamp\":\"t\"}";
    assert!(parse_state_payload(reordered).is_none());
}

#[test]
fn discovery_payload_has_registration_fields() {
    let text = discovery_payload();
    let value: serde_json::Value = serde_json::from_str(&text).expect("discovery must be JSON");
    assert_eq!(value.get("name").and_then(|v| v.as_str()), Some("Session type"));
    assert_eq!(
        value.get("state_topic").and_then(|v| v.as_str()),
        Some("homeassistant/sensor/iracing/state")
    );
    assert_eq!(
        value.get("value_template").and_then(|v| v.as_str()),
        Some("{{ value_json.current_session_type }}")
    );
    assert_eq!(
        value.get("unique_id").and_then(|v| v.as_str()),
        Some("iracing_session_type")
    );
    assert_eq!(value.get("expire_after").and_then(|v| v.as_i64()), Some(30));
    assert_eq!(value.get("device_class").and_then(|v| v.as_str()), Some("enum"));
    let options: Vec<&str> = value
        .get("options")
        .and_then(|v| v.as_array())
        .expect("options must be a list")
        .iter()
        .map(|v| v.as_str().unwrap())
        .collect();
    assert_eq!(
        options,
        vec!["Disconnected", "Practice", "Qualify", "Race", "Lone Qualify", "Offline Testing"]
    );
    let device = value.get("device").expect("device block");
    assert_eq!(device.get("name").and_then(|v| v.as_str()), Some("iRacing Simulator"));
    assert!(device.get("identifiers").is_some());
}
