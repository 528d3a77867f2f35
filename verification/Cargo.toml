[package]
name = "iracing_ha_monitor"
version = "0.1.0"
edition = "2021"
publish = false

[dependencies]
chrono = "*"
futures = "*"
notify = "*"
open = "*"
rumqttc = "*"
serde = { version = "*", features = ["derive"] }
tokio = { version = "*", features = ["macros", "rt-multi-thread", "time", "sync", "signal"] }
toml = "*"

[dev-dependencies]
serde_json = "*"
