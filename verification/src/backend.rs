use vstd::prelude::*;

use crate::config;
use crate::sim_monitor;
use crate::sim_monitor::{Connection, Message};
use crate::tray::{MenuItem, TrayEventType};

verus! {

/// Everything the multiplexer receives and re-emits, tagged by source.
#[derive(Debug, Clone)]
pub enum Event {
    Sim(sim_monitor::Event),
    Tray(TrayEventType),
    ConfigFile(config::Event),
    Shutdown,
}

/// The side effects the multiplexer asks its caller to perform.
#[derive(Debug, Clone, Copy, PartialEq, Eq, Structural)]
pub enum MuxAction {
    /// Open the configuration file in the system's handler, best-effort.
    OpenConfigFile,
    /// Flip the boot registration, best-effort.
    ToggleRunOnBoot,
}

/// What one routing step produces: the events to re-emit outward, in
/// order; the side effects to perform; and whether a configuration update
/// was forwarded to the monitor.
pub struct MuxOutput {
    pub events: Vec<Event>,
    pub actions: Vec<MuxAction>,
    pub config_sent: bool,
}

/// Whether an input is the tray's quit click.
pub open spec fn spec_is_quit(input: Event) -> bool {
    input matches Event::Tray(TrayEventType::MenuItemClicked(MenuItem::Quit))
}

/// Whether the multiplexer is stopped after routing one input: it stops on
/// the tray's quit click and on a process-level shutdown signal, and never
/// starts again.
pub open spec fn spec_next_stopped(stopped: bool, input: Event) -> bool {
    stopped || spec_is_quit(input) || input is Shutdown
}

/// How many events one routing step emits: none when stopped, the input
/// itself otherwise, plus a `Shutdown` after a quit click.
pub open spec fn spec_event_count(stopped: bool, input: Event) -> nat {
    if stopped {
        0
    } else if spec_is_quit(input) {
        2
    } else {
        1
    }
}

/// How many events a run of inputs emits in total.
pub open spec fn spec_total_events(stopped: bool, inputs: Seq<Event>) -> nat
    decreases inputs.len(),
{
    if inputs.len() == 0 {
        0
    } else {
        spec_event_count(stopped, inputs[0]) + spec_total_events(
            spec_next_stopped(stopped, inputs[0]),
            inputs.skip(1),
        )
    }
}

/// The single control loop that merges monitor, tray and configuration
/// events: it retains the monitor's connection once announced, turns tray
/// clicks into side effects, forwards configuration updates, and re-emits
/// every input outward until it is stopped.
pub struct Multiplexer {
    pub connection: Option<Connection>,
    pub stopped: bool,
}

impl Multiplexer {
    pub fn new() -> (r: Multiplexer)
        ensures
            r.connection is None,
            !r.stopped,
    {
        Multiplexer { connection: None, stopped: false }
    }

    /// Routes one input. A stopped multiplexer does nothing at all.
    pub fn handle_event(&mut self, input: Event) -> (r: MuxOutput)
        ensures
            final(self).stopped == spec_next_stopped(old(self).stopped, input),
            r.events@.len() == spec_event_count(old(self).stopped, input),
            old(self).stopped ==> *final(self) == *old(self) && r.events@ == Seq::<Event>::empty()
                && r.actions@ == Seq::<MuxAction>::empty() && !r.config_sent,
            !old(self).stopped ==> {
                &&& (spec_is_quit(input) ==> r.events@ == seq![input, Event::Shutdown])
                &&& (!spec_is_quit(input) ==> r.events@ == seq![input])
                &&& (input matches Event::Sim(sim_monitor::Event::Ready(_))
                    ==> final(self).connection is Some)
                &&& (!(input matches Event::Sim(sim_monitor::Event::Ready(_)))
                    ==> (final(self).connection is Some <==> old(self).connection is Some))
                &&& (input matches Event::Tray(TrayEventType::MenuItemClicked(MenuItem::Options))
                    ==> r.actions@ == seq![MuxAction::OpenConfigFile])
                &&& (input matches Event::Tray(TrayEventType::MenuItemClicked(MenuItem::RunOnBoot))
                    ==> r.actions@ == seq![MuxAction::ToggleRunOnBoot])
                &&& (!(input matches Event::Tray(TrayEventType::MenuItemClicked(m)) && m
                    != MenuItem::Quit) ==> r.actions@ == Seq::<MuxAction>::empty())
                &&& (r.config_sent <==> old(self).connection is Some && (input matches
                Event::ConfigFile(config::Event::Created(_)) || input matches Event::ConfigFile(
                    config::Event::Modified(_),
                )))
            },
    {
        if self.stopped {
            return MuxOutput { events: Vec::new(), actions: Vec::new(), config_sent: false };
        }
        let mut events: Vec<Event> = Vec::new();
        let mut actions: Vec<MuxAction> = Vec::new();
        let mut config_sent = false;
        match input {
            Event::Sim(sim_event) => {
                match sim_event {
                    sim_monitor::Event::Ready(connection) => {
                        // The connection is the only valid target for
                        // forwarding future configuration updates.
                        self.connection = Some(connection.clone());
                        events.push(Event::Sim(sim_monitor::Event::Ready(connection)));
                    },
                    other => {
                        events.push(Event::Sim(other));
                    },
                }
            },
            Event::Tray(tray_event) => {
                match tray_event {
                    TrayEventType::MenuItemClicked(MenuItem::Options) => {
                        actions.push(MuxAction::OpenConfigFile);
                        events.push(Event::Tray(tray_event));
                    },
                    TrayEventType::MenuItemClicked(MenuItem::RunOnBoot) => {
                        actions.push(MuxAction::ToggleRunOnBoot);
                        events.push(Event::Tray(tray_event));
                    },
                    TrayEventType::MenuItemClicked(MenuItem::Quit) => {
                        self.stopped = true;
                        events.push(Event::Tray(tray_event));
                        events.push(Event::Shutdown);
                    },
                }
            },
            Event::ConfigFile(config_event) => {
                match config_event {
                    config::Event::Created(app) => {
                        if let Some(connection) = &mut self.connection {
                            connection.send(Message::UpdateConfig(app.clone()));
                            config_sent = true;
                        }
                        events.push(Event::ConfigFile(config::Event::Created(app)));
                    },
                    config::Event::Modified(app) => {
                        if let Some(connection) = &mut self.connection {
                            connection.send(Message::UpdateConfig(app.clone()));
                            config_sent = true;
                        }
                        events.push(Event::ConfigFile(config::Event::Modified(app)));
                    },
                    config::Event::Deleted(path) => {
                        // A deleted configuration changes nothing; the
                        // previous configuration stays active.
                        events.push(Event::ConfigFile(config::Event::Deleted(path)));
                    },
                }
            },
            Event::Shutdown => {
                self.stopped = true;
                events.push(Event::Shutdown);
            },
        }
        MuxOutput { events, actions, config_sent }
    }
}

/// A stopped multiplexer emits nothing, whatever arrives.
proof fn lemma_stopped_silent(inputs: Seq<Event>)
    ensures
        spec_total_events(true, inputs) == 0,
    decreases inputs.len(),
{
    if inputs.len() > 0 {
        lemma_stopped_silent(inputs.skip(1));
    }
}

/// Shutdown termination: the tray's quit click emits a `Shutdown` event,
/// stops the multiplexer, and no later input emits anything.
pub proof fn lemma_quit_terminal(quit: Event, later: Seq<Event>)
    requires
        spec_is_quit(quit),
    ensures
        spec_next_stopped(false, quit),
        spec_total_events(spec_next_stopped(false, quit), later) == 0,
{
    lemma_stopped_silent(later);
}

} // verus!
