use vstd::prelude::*;

use crate::sim_monitor::MqttConfig;

verus! {

/// One protocol message handed to the broker client: at-least-once
/// delivery, retained only for the discovery registration.
#[derive(Debug)]
pub struct MqttMessage {
    pub topic: String,
    pub payload: String,
    pub retain: bool,
}

/// What the supervisor must do to the broker connection, in the order the
/// actions are listed.
#[derive(Debug)]
pub enum BrokerAction {
    /// Abort the running event pump task; in-flight publishes may be lost.
    CancelPump,
    /// Build a client for this endpoint and start a new supervised pump task.
    StartPump(MqttConfig),
    /// Publish the retained discovery registration, then give the hub a
    /// short fixed delay to process it before any state publish.
    PublishDiscovery(MqttMessage),
    /// Publish one state document, fire-and-forget with a bounded timeout.
    PublishState(MqttMessage),
}

/// The two states of the broker connection manager: no client at all, or
/// one live client with a supervised pump task.
#[derive(Debug)]
pub enum BrokerState {
    Disabled,
    Active(MqttConfig),
}

/// The classification of a broker action, used to state ordering laws.
pub enum ActionKind {
    Cancel,
    Start,
    Discovery,
    StatePublish,
}

pub open spec fn action_kind(a: BrokerAction) -> ActionKind {
    match a {
        BrokerAction::CancelPump => ActionKind::Cancel,
        BrokerAction::StartPump(_) => ActionKind::Start,
        BrokerAction::PublishDiscovery(_) => ActionKind::Discovery,
        BrokerAction::PublishState(_) => ActionKind::StatePublish,
    }
}

/// The shape of one `apply_config` call: a running pump is cancelled first;
/// an enabled configuration then starts a new pump and registers the sensor.
pub open spec fn spec_apply_kinds(b: BrokerState, enabled: bool) -> Seq<ActionKind> {
    (if b is Active {
        seq![ActionKind::Cancel]
    } else {
        Seq::empty()
    }) + (if enabled {
        seq![ActionKind::Start, ActionKind::Discovery]
    } else {
        Seq::empty()
    })
}

} // verus!
