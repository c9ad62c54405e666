[package]
name = "revycraft"
version = "0.1.0"
edition = "2021"
publish = false

[dependencies]
ciborium = "0.2"
num-traits = "0.2"
serde = { version = "1", features = ["derive", "rc"] }
serde_json = "1"
thiserror = "2"
tokio = { version = "1", features = ["net", "rt-multi-thread", "sync", "time", "macros"] }
uuid = { version = "1", features = ["serde"] }
