[package]
name = "edger_hub"
version = "0.1.0"
edition = "2021"
publish = false

[dependencies]
dashmap = "5"
uuid = { version = "1", features = ["v4"] }
tonic = "0.9"
prost = "0.11"
prost-types = "0.11"
tokio = { version = "1", features = ["macros", "rt-multi-thread", "sync", "signal"] }
tokio-stream = "0.1"
clap = { version = "4", features = ["derive"] }
globset = "0.4"
