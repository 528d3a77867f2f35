use vstd::prelude::*;

use crate::sim_monitor::MqttConfig;

verus! {

/// The user-editable application configuration: whether to show a window,
/// the broker endpoint, and whether publishing is enabled at all.
#[derive(Debug)]
pub struct AppConfig {
    pub gui: bool,
    pub mqtt: MqttConfig,
    pub mqtt_enabled: bool,
}

impl Clone for AppConfig {
    fn clone(&self) -> (r: Self)
        ensures
            r == *self,
    {
        AppConfig { gui: self.gui, mqtt: self.mqtt.clone(), mqtt_enabled: self.mqtt_enabled }
    }
}

impl Default for AppConfig {
    /// Publishing starts out disabled, against a local default broker.
    fn default() -> (r: Self)
        ensures
            !r.gui,
            !r.mqtt_enabled,
            r.mqtt.host@ == "localhost"@,
            r.mqtt.port == 1883,
    {
        AppConfig { gui: false, mqtt: MqttConfig::default(), mqtt_enabled: false }
    }
}

/// What the configuration-file watcher reports: a parsed configuration on
/// creation or modification, or the path of a deleted file.
#[derive(Debug, Clone)]
pub enum Event {
    Created(AppConfig),
    Modified(AppConfig),
    Deleted(String),
}

/// One observation of the configuration file on disk.
#[derive(Debug, Clone, Copy, PartialEq, Eq, Structural)]
pub enum FileChange {
    Created,
    Modified,
    Deleted,
}

/// The watcher's routing rule. A created or modified file yields an update
/// only when its content parsed: a parse failure is a no-op, and the
/// previously applied configuration stays active. A deleted file is only
/// reported; it changes no state.
pub fn config_change_event(change: FileChange, parsed: Option<AppConfig>, path: String) -> (r:
    Option<Event>)
    ensures
        change is Created ==> r == parsed_event_created(parsed),
        change is Modified ==> r == parsed_event_modified(parsed),
        change is Deleted ==> r == Some(Event::Deleted(path)),
{
    match change {
        FileChange::Created => match parsed {
            Some(config) => Some(Event::Created(config)),
            None => None,
        },
        FileChange::Modified => match parsed {
            Some(config) => Some(Event::Modified(config)),
            None => None,
        },
        FileChange::Deleted => Some(Event::Deleted(path)),
    }
}

pub open spec fn parsed_event_created(parsed: Option<AppConfig>) -> Option<Event> {
    match parsed {
        Some(config) => Some(Event::Created(config)),
        None => None,
    }
}

pub open spec fn parsed_event_modified(parsed: Option<AppConfig>) -> Option<Event> {
    match parsed {
        Some(config) => Some(Event::Modified(config)),
        None => None,
    }
}

} // verus!
