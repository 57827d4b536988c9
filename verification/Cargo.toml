[package]
name = "playback_scheduler"
version = "0.1.0"
edition = "2021"
publish = false

[dependencies]
regex = "*"
tokio = { version = "*", features = ["rt-multi-thread", "macros", "sync", "time", "io-std", "io-util"] }
serde = { version = "*", features = ["derive"] }
serde_json = "*"
reqwest = { version = "*", default-features = false, features = ["json"] }
