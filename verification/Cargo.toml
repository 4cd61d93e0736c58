[package]
name = "pciewatch"
version = "0.1.0"
edition = "2021"
publish = false

[dependencies]
chrono = "=0.4.45"
nvml-wrapper = "=0.13.0"
serde = { version = "=1.0.229", features = ["derive"] }
serde_json = "=1.0.154"
tray-icon = { version = "=0.25.1", default-features = false, features = ["ksni"] }
windows-sys = "=0.61.2"
winreg = "=0.56.0"
