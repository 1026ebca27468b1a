[package]
name = "model_daemon"
version = "0.1.0"
edition = "2021"

[dependencies]
anyhow = "=1.0.104"
frankensearch-core = "=0.1.2"
frankensearch-embed = { version = "=0.1.3", default-features = false, features = ["hash"] }
frankensearch-index = { version = "=0.1.2", features = ["ann"] }
parking_lot = "=0.12.5"
tracing = "=0.1.44"
