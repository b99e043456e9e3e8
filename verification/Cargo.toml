[package]
name = "concelare_economy"
version = "0.1.0"
edition = "2021"
publish = false

[dependencies]
chrono = { version = "=0.4.45", features = ["serde"] }
redb = "=3.1.3"
serde = { version = "=1.0.229", features = ["derive"] }
serde_json = "=1.0.154"
tracing = "=0.1.44"
uuid = { version = "=1.29.1", features = ["v4", "v7", "serde"] }
pumpkin-plugin-api = "=0.1.0-dev+26.2-26.45"
