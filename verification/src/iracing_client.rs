use vstd::prelude::*;
use vstd::string::*;

verus! {

/// What the monitor needs from a telemetry source: a bounded connection
/// attempt and the current session type. Both are free to fail at any
/// time; every failure reads as "no session data this tick".
pub trait SimClient {
    fn new() -> Self where Self: core::marker::Sized;

    fn connect(&mut self) -> bool;

    fn get_current_session_type(&mut self) -> Option<String>;
}

/// A stand-in telemetry source for builds without a simulator: it always
/// connects and always reports a practice session.
pub struct MockClient {
    connected: bool,
}

impl SimClient for MockClient {
    fn new() -> Self {
        MockClient { connected: false }
    }

    fn connect(&mut self) -> bool {
        self.connected = true;
        self.connected
    }

    fn get_current_session_type(&mut self) -> Option<String> {
        if !self.connect() {
            return None;
        }
        if self.connected {
            Some(String::from_str("Practice"))
        } else {
            None
        }
    }
}

} // verus!
