[package]
name = "cunzhi"
version = "0.1.0"
edition = "2021"
publish = false

[dependencies]
ring = "0.17"
hex = "0.4"
serde = { version = "1", features = ["derive"] }
serde_json = "1"
serde_yaml = "0.9"
dirs = "*"
anyhow = "1"
log = "0.4"
chrono = "0.4"
tokio = { version = "1", features = ["rt-multi-thread", "net", "io-util", "time", "macros", "io-std"] }
rmcp = { version = "0.1", features = ["server", "transport-io"] }
