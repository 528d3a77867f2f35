use iracing_ha_monitor::sim_monitor::{SessionType, SimMonitorState};
use iracing_ha_monitor::tray::MenuItem;

#[test]
fn display_strings_match_wire_values() {
    assert_eq!(SessionType::Disconnected.display_string(), "Disconnected");
    assert_eq!(SessionType::Practice.display_string(), "Practice");
    assert_eq!(SessionType::Qualify.display_string(), "Qualify");
    assert_eq!(SessionType::Race.display_string(), "Race");
    assert_eq!(SessionType::LoneQualify.display_string(), "Lone Qualify");
    assert_eq!(SessionType::OfflineTesting.display_string(), "Offline Testing");
}

#[test]
fn recognized_session_strings_parse() {
    assert_eq!(SessionType::from_session_str("Practice"), SessionType::Practice);
    assert_eq!(SessionType::from_session_str("Qualify"), SessionType::Qualify);
    assert_eq!(SessionType::from_session_str("Race"), SessionType::Race);
    assert_eq!(SessionType::from_session_str("Lone Qualify"), SessionType::LoneQualify);
    assert_eq!(SessionType::from_session_str("Offline Testing"), SessionType::OfflineTesting);
}

#[test]
fn unknown_session_strings_fall_back_to_disconnected() {
    assert_eq!(SessionType::from_session_str("Warmup"), SessionType::Disconnected);
    assert_eq!(SessionType::from_session_str(""), SessionType::Disconnected);
    assert_eq!(SessionType::from_session_str("practice"), SessionType::Disconnected);
    assert_eq!(SessionType::from_session_str("Race "), SessionType::Disconnected);
}

#[test]
fn all_session_types_in_declaration_order() {
    let all = SessionType::all();
    assert_eq!(
        all,
        vec![
            SessionType::Disconnected,
            SessionType::Practice,
            SessionType::Qualify,
            SessionType::Race,
            SessionType::LoneQualify,
            SessionType::OfflineTesting,
        ]
    );
}

#[test]
fn state_equality_includes_timestamp() {
    let a = SimMonitorState {
        connected: true,
        current_session_type: SessionType::Race,
        timestamp: String::from("2024-01-01T00:00:00+00:00"),
    };
    let b = a.clone();
    assert!(a == b);
    let c = SimMonitorState { timestamp: String::from("2024-01-01T00:00:01+00:00"), ..a.clone() };
    assert!(a != c);
    let d = SimMonitorState { current_session_type: SessionType::Practice, ..a.clone() };
    assert!(a != d);
}

#[test]
fn default_state_is_disconnected() {
    let s = SimMonitorState::default();
    assert!(!s.connected);
    assert_eq!(s.current_session_type, SessionType::Disconnected);
    assert!(!s.timestamp.is_empty());
}

#[test]
fn menu_item_ids_round_trip() {
    for item in [MenuItem::Options, MenuItem::Quit, MenuItem::RunOnBoot] {
        let id = item.to_string();
        assert_eq!(MenuItem::from_str(&id), Some(item));
    }
    assert_eq!(MenuItem::from_str("options"), Some(MenuItem::Options));
    assert_eq!(MenuItem::from_str("quit"), Some(MenuItem::Quit));
    assert_eq!(MenuItem::from_str("run_on_boot"), Some(MenuItem::RunOnBoot));
    assert_eq!(MenuItem::from_str("settings"), None);
    assert_eq!(MenuItem::from_str(""), None);
}
