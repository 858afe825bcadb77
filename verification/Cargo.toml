[package]
name = "cosmic-applet-notifications"
version = "0.1.0"
edition = "2021"
publish = false

[dependencies]
ashpd = { version = "=0.13.13", features = ["settings"] }
chrono = { version = "=0.4.45", features = ["serde"] }
dirs = "=7.0.0"
futures = "=0.3.34"
regex = "=1.13.1"
ron = "=0.12.2"
serde = { version = "=1.0.229", features = ["derive"] }
thiserror = "=2.0.21"
tokio = { version = "=1.54.1", features = ["rt", "time", "macros"] }
tracing = "=0.1.44"
tracing-subscriber = { version = "=0.3.23", features = ["env-filter"] }
wayland-protocols = { version = "=0.32.13", features = ["client"] }
zbus = "=5.19.0"

[dev-dependencies]
tempfile = "=3.27.0"
