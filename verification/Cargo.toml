[package]
name = "chatlog"
version = "0.1.0"
edition = "2021"
publish = false

[dependencies]
diff = "=0.1.13"
chrono = "=0.4.45"
clickhouse = "=0.15.3"
dialoguer = "=0.12.0"
env_logger = "=0.11.11"
grammers-client = "=0.10.0"
grammers-session = "=0.10.0"
grammers-tl-types = { version = "=0.10.0", features = ["impl-serde"] }
log = "=0.4.34"
serde = { version = "=1.0.229", features = ["derive"] }
serde_json = "=1.0.154"
tokio = { version = "=1.54.1", features = ["full"] }
