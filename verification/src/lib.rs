//! A supervisor for republishing a simulator's session state to an MQTT
//! broker: it derives a coarse state from telemetry samples on a fixed
//! cadence, deduplicates publishes, manages the broker connection's
//! lifecycle across configuration changes, and multiplexes monitor, tray
//! and configuration events into one control loop with clean shutdown.

pub mod backend;
pub mod broker;
pub mod config;
pub mod iracing_client;
pub mod payload;
pub mod platform;
pub mod sim_monitor;
pub mod text;
pub mod tray;
