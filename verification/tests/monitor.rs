use iracing_ha_monitor::broker::BrokerAction;
use iracing_ha_monitor::config::AppConfig;
use iracing_ha_monitor::sim_monitor::{
    Event, Message, MqttConfig, SessionType, SimMonitor,
};

fn enabled_config() -> AppConfig {
    AppConfig { gui: false, mqtt: MqttConfig::default(), mqtt_enabled: true }
}

fn disabled_config() -> AppConfig {
    AppConfig { gui: false, mqtt: MqttConfig::default(), mqtt_enabled: false }
}

#[test]
fn mqtt_config_default_values() {
    let c = MqttConfig::default();
    assert_eq!(c.host, "localhost");
    assert_eq!(c.port, 1883);
    assert_eq!(c.user, "");
    assert_eq!(c.password, "");
}

#[test]
fn app_config_default_is_disabled() {
    let c = AppConfig::default();
    assert!(!c.gui);
    assert!(!c.mqtt_enabled);
    assert_eq!(c.mqtt.host, "localhost");
}

#[test]
fn new_without_config_does_nothing() {
    let (_, actions) = SimMonitor::new(None);
    assert!(actions.is_empty());
}

#[test]
fn new_with_config_starts_pump_then_registers() {
    let (_, actions) = SimMonitor::new(Some(MqttConfig::default()));
    assert_eq!(actions.len(), 2);
    assert!(matches!(&actions[0], BrokerAction::StartPump(c) if c.host == "localhost"));
    match &actions[1] {
        BrokerAction::PublishDiscovery(m) => {
            assert_eq!(m.topic, "homeassistant/sensor/iracing/config");
            assert!(m.retain);
            assert!(m.payload.contains("\"unique_id\":\"iracing_session_type\""));
        }
        other => panic!("expected a discovery publish, got {:?}", other),
    }
}

#[test]
fn state_transition_sequence_emits_expected_events() {
    // Telemetry across five ticks: nothing, Practice, Practice, Race, nothing.
    let (mut monitor, _) = SimMonitor::new(None);

    let out = monitor.handle_tick(None);
    assert!(matches!(out.event, Some(Event::DisconnectedFromSim(_))));

    let out = monitor.handle_tick(Some(String::from("Practice")));
    match out.event {
        Some(Event::ConnectedToSim(state)) => {
            assert_eq!(state.current_session_type, SessionType::Practice);
        }
        other => panic!("expected a connected event, got {:?}", other),
    }

    let out = monitor.handle_tick(Some(String::from("Practice")));
    assert!(out.event.is_none());
    assert!(out.publish.is_none());

    let out = monitor.handle_tick(Some(String::from("Race")));
    match out.event {
        Some(Event::ConnectedToSim(state)) => {
            assert_eq!(state.current_session_type, SessionType::Race);
        }
        other => panic!("expected a connected event, got {:?}", other),
    }

    let out = monitor.handle_tick(None);
    assert!(matches!(out.event, Some(Event::DisconnectedFromSim(_))));
}

#[test]
fn unknown_session_string_keeps_connected_flag() {
    let (mut monitor, _) = SimMonitor::new(None);
    let out = monitor.handle_tick(Some(String::from("Warmup")));
    assert!(out.state.connected);
    assert_eq!(out.state.current_session_type, SessionType::Disconnected);
}

#[test]
fn repeated_states_publish_once() {
    let (mut monitor, _) = SimMonitor::new(Some(MqttConfig::default()));
    let mut publishes: usize = 0;
    for _ in 0..5 {
        let out = monitor.handle_tick(Some(String::from("Practice")));
        if out.publish.is_some() {
            publishes += 1;
        }
    }
    assert_eq!(publishes, 1);
}

#[test]
fn publish_carries_state_topic_and_payload() {
    let (mut monitor, _) = SimMonitor::new(Some(MqttConfig::default()));
    let out = monitor.handle_tick(Some(String::from("Qualify")));
    let message = out.publish.expect("first tick with a broker must publish");
    assert_eq!(message.topic, "homeassistant/sensor/iracing/state");
    assert!(!message.retain);
    assert!(message.payload.starts_with("{\"connected\":true,\"current_session_type\":\"Qualify\""));
}

#[test]
fn timestamps_are_present_and_wire_safe() {
    let (mut monitor, _) = SimMonitor::new(None);
    let first = monitor.handle_tick(Some(String::from("Race"))).state;
    let second = monitor.handle_tick(None).state;
    assert!(!first.timestamp.is_empty());
    assert!(!second.timestamp.is_empty());
    // Timestamps never hold characters that would need a JSON escape.
    assert!(first.timestamp.chars().all(|c| c != '"' && c != '\\' && (c as u32) >= 0x20));
}

#[test]
fn config_hot_swap_to_disabled_cancels_and_silences() {
    let (mut monitor, _) = SimMonitor::new(Some(MqttConfig::default()));
    let out = monitor.handle_tick(Some(String::from("Race")));
    assert!(out.publish.is_some());

    let actions = monitor.handle_message(Message::UpdateConfig(disabled_config()));
    assert_eq!(actions.len(), 1);
    assert!(matches!(actions[0], BrokerAction::CancelPump));

    // The state changes, but with the manager disabled nothing is published.
    let out = monitor.handle_tick(None);
    assert!(out.publish.is_none());
    assert!(matches!(out.event, Some(Event::DisconnectedFromSim(_))));
    let out = monitor.handle_tick(Some(String::from("Practice")));
    assert!(out.publish.is_none());
}

#[test]
fn config_update_while_active_restarts_pump_in_order() {
    let (mut monitor, _) = SimMonitor::new(Some(MqttConfig::default()));
    let actions = monitor.handle_message(Message::UpdateConfig(enabled_config()));
    assert_eq!(actions.len(), 3);
    assert!(matches!(actions[0], BrokerAction::CancelPump));
    assert!(matches!(actions[1], BrokerAction::StartPump(_)));
    assert!(matches!(actions[2], BrokerAction::PublishDiscovery(_)));
}

#[test]
fn discovery_precedes_state_publish_on_fresh_connection() {
    // On a transition into Active the discovery registration is dispatched
    // with apply_config, before any tick can publish state.
    let (mut monitor, actions) = SimMonitor::new(Some(MqttConfig::default()));
    assert!(actions.iter().all(|a| !matches!(a, BrokerAction::PublishState(_))));
    assert!(matches!(actions.last(), Some(BrokerAction::PublishDiscovery(_))));
    let out = monitor.handle_tick(Some(String::from("Race")));
    assert!(out.publish.is_some());
}

#[test]
fn config_update_does_not_reset_dedup() {
    let (mut monitor, _) = SimMonitor::new(Some(MqttConfig::default()));
    let out = monitor.handle_tick(Some(String::from("Race")));
    assert!(out.publish.is_some());
    // Swap the configuration between two ticks; the derived state is
    // unchanged, so the next tick must not publish again.
    let _ = monitor.handle_message(Message::UpdateConfig(enabled_config()));
    let out = monitor.handle_tick(Some(String::from("Race")));
    assert!(out.publish.is_none());
    assert!(out.event.is_none());
}

#[test]
fn event_display_strings() {
    let (mut monitor, _) = SimMonitor::new(None);
    let event = monitor.handle_tick(None).event.expect("first tick reports");
    assert_eq!(event.display_string(), "iRacing Disconnected");
    let event = monitor.handle_tick(Some(String::from("Race"))).event.expect("change reports");
    assert_eq!(event.display_string(), "iRacing Connected");
}
