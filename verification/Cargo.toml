[package]
name = "acton_dx"
version = "0.1.0"
edition = "2021"
publish = false

[dependencies]
dirs = "*"
serde = { version = "1", features = ["derive"] }
serde_json = "1"
tokio = { version = "1", features = ["net", "io-util", "time", "rt", "macros", "sync"] }
clap = { version = "4", features = ["derive"] }
anyhow = "1"
thiserror = "*"
chrono = "*"
