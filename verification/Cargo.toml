[package]
name = "opencode_sidecar"
version = "0.1.0"
edition = "2021"
publish = false

[dependencies]
serde_json = "1"
tokio = { version = "1", features = ["macros", "rt-multi-thread", "process", "io-util", "time", "sync"] }
reqwest = { version = "0.12", default-features = false, features = ["stream"] }
futures = "0.3"
which = "*"
