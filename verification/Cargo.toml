[package]
name = "miditui"
version = "0.1.0"
edition = "2021"
publish = false

[dependencies]
anyhow = "1"
bincode = "1.3"
crossterm = "0.28"
hound = "3.5"
midly = "0.5"
ratatui = "0.29"
rodio = { version = "0.20", default-features = false }
rustysynth = "1.3"
serde = { version = "1", features = ["derive"] }
serde_json = { version = "1", features = ["preserve_order"] }
tracing = "0.1"
tracing-subscriber = { version = "0.3", features = ["env-filter"] }
