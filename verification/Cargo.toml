[package]
name = "nydus_daemon"
version = "0.1.0"
edition = "2021"
publish = false

[dependencies]
serde = { version = "1", features = ["derive"] }
serde_json = "1"
chrono = "0.4"
vmm-sys-util = "*"
event-manager = "*"
