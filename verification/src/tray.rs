use vstd::prelude::*;
use vstd::string::*;

use crate::sim_monitor::SimMonitorState;
use crate::text::str_eq;

verus! {

/// The items of the tray menu, resolved once at the boundary from their
/// opaque string identifiers so that routing is exhaustively checked.
#[derive(Clone, Copy, Debug, PartialEq, Eq, Structural)]
pub enum MenuItem {
    Options,
    Quit,
    RunOnBoot,
}

/// The identifier under which a menu item is registered with the platform
/// tray, and under which clicks are reported back.
pub open spec fn spec_menu_item_id(m: MenuItem) -> Seq<char> {
    match m {
        MenuItem::Options => "options"@,
        MenuItem::Quit => "quit"@,
        MenuItem::RunOnBoot => "run_on_boot"@,
    }
}

/// The inverse reading of a reported identifier.
pub open spec fn spec_menu_item_from_id(s: Seq<char>) -> Option<MenuItem> {
    if s == spec_menu_item_id(MenuItem::Options) {
        Some(MenuItem::Options)
    } else if s == spec_menu_item_id(MenuItem::Quit) {
        Some(MenuItem::Quit)
    } else if s == spec_menu_item_id(MenuItem::RunOnBoot) {
        Some(MenuItem::RunOnBoot)
    } else {
        None
    }
}

impl MenuItem {
    /// The identifier this item is registered under.
    pub fn to_string(&self) -> (r: String)
        ensures
            r@ == spec_menu_item_id(*self),
    {
        match self {
            MenuItem::Options => String::from_str("options"),
            MenuItem::Quit => String::from_str("quit"),
            MenuItem::RunOnBoot => String::from_str("run_on_boot"),
        }
    }

    /// Resolves a reported identifier; unknown identifiers resolve to nothing.
    pub fn from_str(s: &str) -> (r: Option<MenuItem>)
        ensures
            r == spec_menu_item_from_id(s@),
    {
        if str_eq(s, "options") {
            Some(MenuItem::Options)
        } else if str_eq(s, "quit") {
            Some(MenuItem::Quit)
        } else if str_eq(s, "run_on_boot") {
            Some(MenuItem::RunOnBoot)
        } else {
            None
        }
    }
}

/// What the tray reports to the multiplexer.
#[derive(Clone, Copy, Debug)]
pub enum TrayEventType {
    MenuItemClicked(MenuItem),
}

/// What the multiplexer needs from a tray handle: show the latest state,
/// and stand down on shutdown.
pub trait TrayIconInterface {
    fn update_state(&mut self, state: SimMonitorState);

    fn shutdown(&mut self);
}

#[verifier::external_type_specification]
#[verifier::external_body]
#[verifier::reject_recursive_types(T)]
pub struct ExStdMpscSender<T>(std::sync::mpsc::Sender<T>);

/// Relies on std's `mpsc::Sender::send`: it queues the value, or returns it
/// as an error when the receiver is gone. The error is dropped here: tray
/// updates are best-effort.
#[verifier::external_body]
fn send_state(sender: &std::sync::mpsc::Sender<SimMonitorState>, state: SimMonitorState) {
    let _ = sender.send(state);
}

/// The tray handle used where the icon itself must live on a dedicated UI
/// thread: derived states are handed over a channel to that thread.
pub struct GtkTrayIcon {
    sender: std::sync::mpsc::Sender<SimMonitorState>,
}

impl GtkTrayIcon {
    pub fn new(sender: std::sync::mpsc::Sender<SimMonitorState>) -> GtkTrayIcon {
        GtkTrayIcon { sender }
    }
}

impl TrayIconInterface for GtkTrayIcon {
    fn update_state(&mut self, state: SimMonitorState) {
        send_state(&self.sender, state);
    }

    fn shutdown(&mut self) {
        // The channel closes when the handle is dropped; the icon thread
        // notices on its next receive.
    }
}

} // verus!
