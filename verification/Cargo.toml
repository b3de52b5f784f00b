[package]
name = "dualsensectl_gui"
version = "0.1.0"
edition = "2021"
publish = false

[dependencies]
serde = { version = "*", features = ["derive"] }
serde_json = "*"
dirs-next = "*"
chrono = "*"
log = "*"
env_logger = "*"
