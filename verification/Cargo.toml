[package]
name = "anchor_qbft"
version = "0.1.0"
edition = "2021"
publish = false

[dependencies]
num_cpus = "=1.17.0"
serde = { version = "=1.0.229", features = ["derive"] }
tokio = { version = "=1.54.1", features = ["macros", "rt", "sync", "time"] }
tracing = "=0.1.44"
