[package]
name = "notify_listener"
version = "0.1.0"
edition = "2021"
publish = false

[dependencies]
rumqttc = "*"
serde = { version = "*", features = ["derive"] }
serde_json = "*"
tray-item = "*"
win-toast-notify = "*"
