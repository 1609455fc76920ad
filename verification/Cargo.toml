[package]
name = "monerod_exporter"
version = "0.1.0"
edition = "2021"
publish = false

[dependencies]
config = "0.11"
dirs = "3"
humantime = "2"
reqwest = { version = "0.11", features = ["json"] }
serde = { version = "1", features = ["derive"] }
serde_json = "1"
tokio = { version = "1", features = ["macros", "net", "rt", "time"] }
tracing = "0.1"
tracing-subscriber = "0.2"
warp = { version = "0.3", features = ["tls"] }
