use vstd::prelude::*;
use vstd::string::*;

use crate::broker::{
    action_kind, spec_apply_kinds, ActionKind, BrokerAction, BrokerState, MqttMessage,
};
use crate::config::AppConfig;
use crate::payload::{
    config_topic, discovery_payload, spec_config_topic, spec_discovery_payload,
    spec_state_payload, spec_state_topic, state_payload, state_topic,
};
use crate::text::str_eq;

verus! {

/// The coarse session category derived from one telemetry sample.
///
/// `Disconnected` doubles as the defensive fallback for session strings
/// that the monitor does not recognize.
#[derive(Clone, Copy, Debug, PartialEq, Eq, Structural)]
pub enum SessionType {
    Disconnected,
    Practice,
    Qualify,
    Race,
    LoneQualify,
    OfflineTesting,
}

/// The display string of a session type, as it appears on the wire and in menus.
pub open spec fn session_label(st: SessionType) -> Seq<char> {
    match st {
        SessionType::Disconnected => "Disconnected"@,
        SessionType::Practice => "Practice"@,
        SessionType::Qualify => "Qualify"@,
        SessionType::Race => "Race"@,
        SessionType::LoneQualify => "Lone Qualify"@,
        SessionType::OfflineTesting => "Offline Testing"@,
    }
}

/// How a raw session string from the telemetry source is interpreted:
/// the five recognized values map to their variant, anything else falls
/// back to `Disconnected`.
pub open spec fn parse_session(s: Seq<char>) -> SessionType {
    if s == session_label(SessionType::Practice) {
        SessionType::Practice
    } else if s == session_label(SessionType::Qualify) {
        SessionType::Qualify
    } else if s == session_label(SessionType::Race) {
        SessionType::Race
    } else if s == session_label(SessionType::LoneQualify) {
        SessionType::LoneQualify
    } else if s == session_label(SessionType::OfflineTesting) {
        SessionType::OfflineTesting
    } else {
        SessionType::Disconnected
    }
}

impl SessionType {
    /// The human-readable name of this session type.
    pub fn display_string(&self) -> (r: String)
        ensures
            r@ == session_label(*self),
    {
        match self {
            SessionType::Disconnected => String::from_str("Disconnected"),
            SessionType::Practice => String::from_str("Practice"),
            SessionType::Qualify => String::from_str("Qualify"),
            SessionType::Race => String::from_str("Race"),
            SessionType::LoneQualify => String::from_str("Lone Qualify"),
            SessionType::OfflineTesting => String::from_str("Offline Testing"),
        }
    }

    /// Interprets a raw session string from the telemetry source.
    pub fn from_session_str(s: &str) -> (r: SessionType)
        ensures
            r == parse_session(s@),
    {
        if str_eq(s, "Practice") {
            SessionType::Practice
        } else if str_eq(s, "Qualify") {
            SessionType::Qualify
        } else if str_eq(s, "Race") {
            SessionType::Race
        } else if str_eq(s, "Lone Qualify") {
            SessionType::LoneQualify
        } else if str_eq(s, "Offline Testing") {
            SessionType::OfflineTesting
        } else {
            SessionType::Disconnected
        }
    }

    /// All session types, in the order they are announced in the
    /// discovery registration's `options` list.
    pub fn all() -> (r: Vec<SessionType>)
        ensures
            r@ == seq![
                SessionType::Disconnected,
                SessionType::Practice,
                SessionType::Qualify,
                SessionType::Race,
                SessionType::LoneQualify,
                SessionType::OfflineTesting,
            ],
    {
        let mut v: Vec<SessionType> = Vec::new();
        v.push(SessionType::Disconnected);
        v.push(SessionType::Practice);
        v.push(SessionType::Qualify);
        v.push(SessionType::Race);
        v.push(SessionType::LoneQualify);
        v.push(SessionType::OfflineTesting);
        proof {
            assert(v@ =~= seq![
                SessionType::Disconnected,
                SessionType::Practice,
                SessionType::Qualify,
                SessionType::Race,
                SessionType::LoneQualify,
                SessionType::OfflineTesting,
            ]);
        }
        v
    }
}

/// A character that may stand unescaped inside a JSON string.
pub open spec fn plain_json_char(c: char) -> bool {
    c != '"' && c != '\\' && (c as u32) >= 0x20
}

/// All characters of a sequence may stand unescaped inside a JSON string.
pub open spec fn plain_json_text(s: Seq<char>) -> bool {
    forall|i: int| 0 <= i < s.len() ==> plain_json_char(s[i])
}

/// Relies on chrono's `Utc::now().to_rfc3339()`: an RFC 3339 timestamp is a
/// non-empty string of ASCII date, time and offset characters, so it never
/// holds a quote, a backslash or a control character.
#[verifier::external_body]
fn now_rfc3339() -> (r: String)
    ensures
        r@.len() > 0,
        plain_json_text(r@),
{
    chrono::Utc::now().to_rfc3339()
}

/// The derived state that one poll tick produces: whether the telemetry
/// source was reachable, which session it reported, and when the sample
/// was taken.
#[derive(Debug)]
pub struct SimMonitorState {
    pub connected: bool,
    pub current_session_type: SessionType,
    pub timestamp: String,
}

impl SimMonitorState {
    /// A disconnected source always reports `Disconnected`, and the
    /// timestamp is fit for the wire payload.
    pub open spec fn wf(&self) -> bool {
        &&& !self.connected ==> self.current_session_type is Disconnected
        &&& plain_json_text(self.timestamp@)
    }

    /// The part of the state that drives publish deduplication: the
    /// timestamp is deliberately excluded, so that a fresh sample time
    /// alone never counts as a change.
    pub open spec fn key(&self) -> (bool, SessionType) {
        (self.connected, self.current_session_type)
    }
}

impl Clone for SimMonitorState {
    fn clone(&self) -> (r: Self)
        ensures
            r == *self,
    {
        SimMonitorState {
            connected: self.connected,
            current_session_type: self.current_session_type,
            timestamp: self.timestamp.clone(),
        }
    }
}

impl PartialEq for SimMonitorState {
    fn eq(&self, other: &Self) -> (r: bool) {
        self.connected == other.connected
            && self.current_session_type == other.current_session_type
            && str_eq(self.timestamp.as_str(), other.timestamp.as_str())
    }
}

impl vstd::std_specs::cmp::PartialEqSpecImpl for SimMonitorState {
    open spec fn obeys_eq_spec() -> bool {
        true
    }

    open spec fn eq_spec(&self, other: &Self) -> bool {
        &&& self.connected == other.connected
        &&& self.current_session_type == other.current_session_type
        &&& self.timestamp@ == other.timestamp@
    }
}

impl Default for SimMonitorState {
    /// The state before any sample: disconnected, stamped with the current time.
    fn default() -> (r: Self)
        ensures
            !r.connected,
            r.current_session_type is Disconnected,
            r.wf(),
    {
        SimMonitorState {
            connected: false,
            current_session_type: SessionType::Disconnected,
            timestamp: now_rfc3339(),
        }
    }
}

/// The broker endpoint and credentials that one `apply_config` call installs.
#[derive(Debug)]
pub struct MqttConfig {
    pub host: String,
    pub port: u16,
    pub user: String,
    pub password: String,
}

impl Clone for MqttConfig {
    fn clone(&self) -> (r: Self)
        ensures
            r == *self,
    {
        MqttConfig {
            host: self.host.clone(),
            port: self.port,
            user: self.user.clone(),
            password: self.password.clone(),
        }
    }
}

impl Default for MqttConfig {
    fn default() -> (r: Self)
        ensures
            r.host@ == "localhost"@,
            r.port == 1883,
            r.user@ == Seq::<char>::empty(),
            r.password@ == Seq::<char>::empty(),
    {
        MqttConfig {
            host: String::from_str("localhost"),
            port: 1883,
            user: String::new(),
            password: String::new(),
        }
    }
}

// ---------------------------------------------------------------------------
// Commands, the connection capability, and outward events
// ---------------------------------------------------------------------------

/// The one command the monitor accepts from outside.
#[derive(Debug, Clone)]
pub enum Message {
    UpdateConfig(AppConfig),
}

#[verifier::external_type_specification]
#[verifier::external_body]
#[verifier::reject_recursive_types(T)]
pub struct ExSender<T>(futures::channel::mpsc::Sender<T>);

/// Relies on futures' `Clone for mpsc::Sender`: the clone is another send
/// half of the same channel. Nothing further is claimed of it.
pub assume_specification<T>[ <futures::channel::mpsc::Sender<T> as Clone>::clone ](
    sender: &futures::channel::mpsc::Sender<T>,
) -> futures::channel::mpsc::Sender<T>;

/// A cloneable capability for sending commands into the running monitor
/// task. It wraps the send half of the monitor's bounded command channel
/// and becomes inert once the task is gone.
#[derive(Debug, Clone)]
pub struct Connection(futures::channel::mpsc::Sender<Message>);

impl Connection {
    /// Wraps the send half of the monitor's command channel.
    pub fn new(sender: futures::channel::mpsc::Sender<Message>) -> Connection {
        Connection(sender)
    }

    /// Relies on futures' `mpsc::Sender::try_send`: it hands the message to
    /// the channel or returns it as an error, and never blocks. A refused or
    /// failed send is dropped here: commands are best-effort.
    #[verifier::external_body]
    pub fn send(&mut self, message: Message) {
        let _ = self.0.try_send(message);
    }
}

/// What the monitor reports outward. Exactly one `Ready` is emitted per
/// monitor task lifetime, before any state event.
#[derive(Debug, Clone)]
pub enum Event {
    Ready(Connection),
    ConnectedToSim(SimMonitorState),
    DisconnectedFromSim(SimMonitorState),
}

/// The short description of an event, as shown in a status line.
pub open spec fn spec_event_label(e: Event) -> Seq<char> {
    match e {
        Event::Ready(_) => "Ready"@,
        Event::ConnectedToSim(_) => "iRacing Connected"@,
        Event::DisconnectedFromSim(_) => "iRacing Disconnected"@,
    }
}

impl Event {
    /// The short description of this event.
    pub fn display_string(&self) -> (r: String)
        ensures
            r@ == spec_event_label(*self),
    {
        match self {
            Event::Ready(_) => String::from_str("Ready"),
            Event::ConnectedToSim(_) => String::from_str("iRacing Connected"),
            Event::DisconnectedFromSim(_) => String::from_str("iRacing Disconnected"),
        }
    }
}

// ---------------------------------------------------------------------------
// The monitor state machine
// ---------------------------------------------------------------------------

/// The broker configuration that an application configuration calls for:
/// none at all when publishing is disabled.
pub open spec fn spec_config_of(app: AppConfig) -> Option<MqttConfig> {
    if app.mqtt_enabled {
        Some(app.mqtt)
    } else {
        None
    }
}

/// The manager state that an `apply_config` argument leads to.
pub open spec fn spec_broker_of(cfg: Option<MqttConfig>) -> BrokerState {
    match cfg {
        Some(c) => BrokerState::Active(c),
        None => BrokerState::Disabled,
    }
}

/// The dedup key of the last published state, if any.
pub open spec fn key_of(last: Option<SimMonitorState>) -> Option<(bool, SessionType)> {
    match last {
        None => None,
        Some(s) => Some(s.key()),
    }
}

/// Whether a fresh key counts as a change against the last published one.
/// Before anything was published, everything counts as a change.
pub open spec fn key_changed(last: Option<(bool, SessionType)>, k: (bool, SessionType)) -> bool {
    match last {
        None => true,
        Some(l) => l != k,
    }
}

/// What one poll tick asks of the caller: the freshly derived state, at
/// most one publish, and at most one outward event.
pub struct TickOutcome {
    pub state: SimMonitorState,
    pub publish: Option<MqttMessage>,
    pub event: Option<Event>,
}

/// The supervisor core of the poll loop: it owns the broker manager's
/// state and the last published state, and decides on every command and
/// every tick. Whatever touches the network is returned as an action for
/// the caller to perform.
pub struct SimMonitor {
    pub broker: BrokerState,
    pub last_state: Option<SimMonitorState>,
    pub mqtt_topic: String,
}

impl SimMonitor {
    /// The state topic is fixed for the life of the monitor, and whatever
    /// was published last is a well-formed state.
    pub open spec fn wf(&self) -> bool {
        &&& self.mqtt_topic@ == spec_state_topic()
        &&& match self.last_state {
            Some(s) => s.wf(),
            None => true,
        }
    }

    /// A fresh monitor with the initial broker configuration applied and
    /// nothing published yet.
    pub fn new(mqtt_config: Option<MqttConfig>) -> (r: (SimMonitor, Vec<BrokerAction>))
        ensures
            r.0.wf(),
            r.0.last_state is None,
            r.0.broker == spec_broker_of(mqtt_config),
            r.1@.len() == spec_apply_kinds(BrokerState::Disabled, mqtt_config is Some).len(),
            r.1@.map_values(|a: BrokerAction| action_kind(a)) == spec_apply_kinds(
                BrokerState::Disabled,
                mqtt_config is Some,
            ),
            mqtt_config matches Some(c) ==> spec_starts_active(r.1@, c),
    {
        let mut monitor = SimMonitor {
            broker: BrokerState::Disabled,
            last_state: None,
            mqtt_topic: state_topic(),
        };
        let actions = monitor.apply_config(mqtt_config);
        (monitor, actions)
    }

    /// Replaces or disables the broker connection. A running pump task is
    /// always cancelled first; an enabled configuration then starts a new
    /// pump and sends the retained discovery registration, in that order.
    /// The dedup state is untouched.
    pub fn apply_config(&mut self, mqtt_config: Option<MqttConfig>) -> (actions: Vec<BrokerAction>)
        requires
            old(self).wf(),
        ensures
            final(self).wf(),
            final(self).last_state == old(self).last_state,
            final(self).mqtt_topic == old(self).mqtt_topic,
            final(self).broker == spec_broker_of(mqtt_config),
            actions@.len() == spec_apply_kinds(old(self).broker, mqtt_config is Some).len(),
            actions@.map_values(|a: BrokerAction| action_kind(a)) == spec_apply_kinds(
                old(self).broker,
                mqtt_config is Some,
            ),
            mqtt_config matches Some(c) ==> spec_starts_active(actions@, c),
    {
        let mut actions: Vec<BrokerAction> = Vec::new();
        let was_active = match &self.broker {
            BrokerState::Active(_) => true,
            BrokerState::Disabled => false,
        };
        if was_active {
            actions.push(BrokerAction::CancelPump);
        }
        match mqtt_config {
            None => {
                self.broker = BrokerState::Disabled;
            },
            Some(c) => {
                actions.push(BrokerAction::StartPump(c.clone()));
                actions.push(
                    BrokerAction::PublishDiscovery(
                        MqttMessage {
                            topic: config_topic(),
                            payload: discovery_payload(),
                            retain: true,
                        },
                    ),
                );
                self.broker = BrokerState::Active(c);
            },
        }
        proof {
            assert(actions@.map_values(|a: BrokerAction| action_kind(a)) =~= spec_apply_kinds(
                old(self).broker,
                mqtt_config is Some,
            ));
        }
        actions
    }

    /// Routes one inbound command: an `UpdateConfig` re-derives the broker
    /// configuration and applies it. The dedup comparator is unaffected.
    pub fn handle_message(&mut self, message: Message) -> (actions: Vec<BrokerAction>)
        requires
            old(self).wf(),
        ensures
            final(self).wf(),
            final(self).last_state == old(self).last_state,
            final(self).mqtt_topic == old(self).mqtt_topic,
            message matches Message::UpdateConfig(app) ==> {
                &&& final(self).broker == spec_broker_of(spec_config_of(app))
                &&& actions@.len() == spec_apply_kinds(old(self).broker, app.mqtt_enabled).len()
                &&& actions@.map_values(|a: BrokerAction| action_kind(a)) == spec_apply_kinds(
                    old(self).broker,
                    app.mqtt_enabled,
                )
                &&& app.mqtt_enabled ==> spec_starts_active(actions@, app.mqtt)
            },
    {
        match message {
            Message::UpdateConfig(app) => {
                if app.mqtt_enabled {
                    self.apply_config(Some(app.mqtt))
                } else {
                    self.apply_config(None)
                }
            },
        }
    }

    /// One poll tick: derives the state from the sample, stamps it with the
    /// current time, and on a change of the dedup key publishes it (when a
    /// broker is active), records it, and reports it outward. A repeated
    /// key produces neither a publish nor an event.
    pub fn handle_tick(&mut self, sample: Option<String>) -> (r: TickOutcome)
        requires
            old(self).wf(),
        ensures
            final(self).wf(),
            final(self).broker == old(self).broker,
            final(self).mqtt_topic == old(self).mqtt_topic,
            r.state.wf(),
            r.state.connected == sample is Some,
            r.state.current_session_type == (match sample {
                Some(s) => parse_session(s@),
                None => SessionType::Disconnected,
            }),
            ({
                let changed = key_changed(key_of(old(self).last_state), r.state.key());
                &&& (r.event is Some <==> changed)
                &&& (changed ==> final(self).last_state == Some(r.state))
                &&& (!changed ==> final(self).last_state == old(self).last_state)
                &&& (changed && r.state.connected ==> r.event == Some(Event::ConnectedToSim(r.state)))
                &&& (changed && !r.state.connected ==> r.event == Some(
                    Event::DisconnectedFromSim(r.state),
                ))
                &&& (r.publish is Some <==> spec_tick_publishes(
                    old(self).broker is Active,
                    key_of(old(self).last_state),
                    r.state.key(),
                ))
                &&& key_of(final(self).last_state) == spec_next_last(
                    key_of(old(self).last_state),
                    r.state.key(),
                )
            }),
            r.publish matches Some(m) ==> {
                &&& m.topic@ == spec_state_topic()
                &&& m.payload@ == spec_state_payload(
                    r.state.connected,
                    r.state.current_session_type,
                    r.state.timestamp@,
                )
                &&& !m.retain
            },
    {
        let timestamp = now_rfc3339();
        let state = match sample {
            Some(s) => SimMonitorState {
                connected: true,
                current_session_type: SessionType::from_session_str(s.as_str()),
                timestamp,
            },
            None => SimMonitorState {
                connected: false,
                current_session_type: SessionType::Disconnected,
                timestamp,
            },
        };
        let changed = match &self.last_state {
            None => true,
            Some(last) => last.connected != state.connected || last.current_session_type
                != state.current_session_type,
        };
        if !changed {
            return TickOutcome { state, publish: None, event: None };
        }
        let publish = match &self.broker {
            BrokerState::Active(_) => Some(
                MqttMessage {
                    topic: self.mqtt_topic.clone(),
                    payload: state_payload(&state),
                    retain: false,
                },
            ),
            BrokerState::Disabled => None,
        };
        self.last_state = Some(state.clone());
        let event = if state.connected {
            Event::ConnectedToSim(state.clone())
        } else {
            Event::DisconnectedFromSim(state.clone())
        };
        TickOutcome { state, publish, event: Some(event) }
    }
}

/// An action list that brings a connection up: it ends with starting the
/// pump for exactly this configuration and registering the sensor through
/// the retained discovery document.
pub open spec fn spec_starts_active(actions: Seq<BrokerAction>, c: MqttConfig) -> bool {
    &&& actions.len() >= 2
    &&& actions[actions.len() - 2] == BrokerAction::StartPump(c)
    &&& actions[actions.len() - 1] matches BrokerAction::PublishDiscovery(m) && m.topic@
        == spec_config_topic() && m.payload@ == spec_discovery_payload() && m.retain
}

// ---------------------------------------------------------------------------
// Laws of the poll loop
// ---------------------------------------------------------------------------

/// Whether one tick with dedup key `k` publishes, given the key published
/// last and whether a broker is active; mirrors `handle_tick`.
pub open spec fn spec_tick_publishes(
    broker_active: bool,
    last: Option<(bool, SessionType)>,
    k: (bool, SessionType),
) -> bool {
    broker_active && key_changed(last, k)
}

/// The dedup key recorded after one tick with key `k`; mirrors `handle_tick`.
pub open spec fn spec_next_last(
    last: Option<(bool, SessionType)>,
    k: (bool, SessionType),
) -> Option<(bool, SessionType)> {
    if key_changed(last, k) {
        Some(k)
    } else {
        last
    }
}

/// How many publishes a run of ticks with these dedup keys dispatches.
pub open spec fn spec_publish_count(
    broker_active: bool,
    last: Option<(bool, SessionType)>,
    ks: Seq<(bool, SessionType)>,
) -> nat
    decreases ks.len(),
{
    if ks.len() == 0 {
        0
    } else {
        (if spec_tick_publishes(broker_active, last, ks[0]) {
            1nat
        } else {
            0nat
        }) + spec_publish_count(broker_active, spec_next_last(last, ks[0]), ks.skip(1))
    }
}

/// Idempotent publish suppression: a run of ticks that all derive the same
/// state key publishes exactly once — on the first tick — and not at all
/// if that key was already the last one published.
pub proof fn lemma_publish_suppression(
    last: Option<(bool, SessionType)>,
    k: (bool, SessionType),
    ks: Seq<(bool, SessionType)>,
)
    requires
        forall|i: int| 0 <= i < ks.len() ==> ks[i] == k,
    ensures
        spec_publish_count(true, last, ks) == if ks.len() > 0 && key_changed(last, k) {
            1nat
        } else {
            0nat
        },
    decreases ks.len(),
{
    if ks.len() > 0 {
        assert(ks[0] == k);
        let rest = ks.skip(1);
        assert(forall|i: int| 0 <= i < rest.len() ==> rest[i] == ks[i + 1]);
        lemma_publish_suppression(spec_next_last(last, k), k, rest);
        assert(!key_changed(spec_next_last(last, k), k));
    }
}

/// A disabled broker never publishes, whatever the ticks derive.
pub proof fn lemma_disabled_never_publishes(
    last: Option<(bool, SessionType)>,
    ks: Seq<(bool, SessionType)>,
)
    ensures
        spec_publish_count(false, last, ks) == 0,
    decreases ks.len(),
{
    if ks.len() > 0 {
        lemma_disabled_never_publishes(spec_next_last(last, ks[0]), ks.skip(1));
    }
}

/// The state publishes that a run of ticks dispatches, as a trace of
/// action kinds; mirrors `handle_tick`.
pub open spec fn spec_ticks_publish_kinds(
    broker_active: bool,
    last: Option<(bool, SessionType)>,
    ks: Seq<(bool, SessionType)>,
) -> Seq<ActionKind>
    decreases ks.len(),
{
    if ks.len() == 0 {
        Seq::empty()
    } else {
        (if spec_tick_publishes(broker_active, last, ks[0]) {
            seq![ActionKind::StatePublish]
        } else {
            Seq::empty()
        }) + spec_ticks_publish_kinds(broker_active, spec_next_last(last, ks[0]), ks.skip(1))
    }
}

/// Discovery registration ordering: on a transition into Active, the
/// discovery registration stands in the `apply_config` actions, and every
/// state publish of the following ticks comes after it in the combined
/// trace.
pub proof fn lemma_discovery_before_state(
    b: BrokerState,
    last: Option<(bool, SessionType)>,
    ks: Seq<(bool, SessionType)>,
)
    ensures
        ({
            let trace = spec_apply_kinds(b, true) + spec_ticks_publish_kinds(true, last, ks);
            forall|j: int|
                0 <= j < trace.len() && trace[j] is StatePublish ==> exists|i: int|
                    0 <= i < j && trace[i] is Discovery
        }),
{
    let head = spec_apply_kinds(b, true);
    let trace = head + spec_ticks_publish_kinds(true, last, ks);
    assert(head[head.len() - 1] is Discovery);
    assert forall|j: int|
        0 <= j < trace.len() && trace[j] is StatePublish implies exists|i: int|
        0 <= i < j && trace[i] is Discovery by {
        if j < head.len() {
            assert(trace[j] == head[j]);
            if b is Active {
                assert(head[0] is Cancel && head[1] is Start && head[2] is Discovery);
            } else {
                assert(head[0] is Start && head[1] is Discovery);
            }
            assert(false);
        } else {
            let i = head.len() - 1;
            assert(0 <= i < j && trace[i as int] is Discovery);
        }
    }
}

} // verus!
