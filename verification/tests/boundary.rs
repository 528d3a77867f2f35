use iracing_ha_monitor::iracing_client::{MockClient, SimClient};
use iracing_ha_monitor::platform;
use iracing_ha_monitor::sim_monitor::{SessionType, SimMonitorState};
use iracing_ha_monitor::tray::{GtkTrayIcon, TrayIconInterface};

#[test]
fn mock_client_reports_practice() {
    let mut client = MockClient::new();
    assert!(client.connect());
    assert_eq!(client.get_current_session_type(), Some(String::from("Practice")));
}

#[test]
fn platform_startup_stubs_are_benign() {
    assert!(platform::set_run_at_startup(true, "/usr/bin/monitor").is_ok());
    assert!(platform::set_run_at_startup(false, "/usr/bin/monitor").is_ok());
    assert_eq!(platform::get_run_on_startup_state().unwrap(), false);
    platform::toggle_run_on_boot();
}

#[test]
fn gtk_tray_hands_states_over_its_channel() {
    let (tx, rx) = std::sync::mpsc::channel::<SimMonitorState>();
    let mut tray = GtkTrayIcon::new(tx);
    let state = SimMonitorState {
        connected: true,
        current_session_type: SessionType::Race,
        timestamp: String::from("2024-01-01T00:00:00+00:00"),
    };
    tray.update_state(state.clone());
    let received = rx.try_recv().expect("state must be queued");
    assert!(received == state);
    tray.shutdown();
}
