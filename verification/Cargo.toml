[package]
name = "idle_time"
version = "0.1.0"
edition = "2021"
publish = false

[dependencies]
chrono = "0.4"
dbus = "0.9"
figment = { version = "0.10", features = ["toml", "env"] }
ureq = { version = "2", default-features = false }
