[package]
name = "vrc_osc_alarm"
version = "0.1.0"
edition = "2021"
publish = false

[dependencies]
rosc = "*"
chrono = "*"
tokio = { version = "*", default-features = false, features = ["rt-multi-thread", "time", "net", "sync"] }
serde = { version = "*", features = ["derive"] }
serde_json = "*"
dirs = "*"
