[package]
name = "chaos_engine"
version = "0.1.0"
edition = "2021"
publish = false

[dependencies]
regex = "*"
rand = "*"
chrono = "*"
chrono-tz = "*"
serde = { version = "*", features = ["derive"] }
serde_yaml = "*"
clap = { version = "*", features = ["derive"] }
tokio = { version = "*", default-features = false, features = ["rt", "time", "rt-multi-thread", "macros"] }
