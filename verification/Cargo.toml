[package]
name = "ticket_config"
version = "0.1.0"
edition = "2021"
publish = false

[dependencies]
log = "0.4"
schemars = "0.8"
serde = { version = "1", features = ["derive"] }
serde_json = "1"
serde_yaml = "0.9"
