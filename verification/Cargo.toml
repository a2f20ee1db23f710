[package]
name = "rstracer"
version = "0.1.0"
edition = "2021"
publish = false

[dependencies]
chrono = "0.4"
regex = "1"
pnet = "0.35"
tokio = { version = "1", features = ["full"] }
duckdb = "*"
pcap = "*"
procfs = "*"
config = "*"
serde = { version = "1", features = ["derive"] }
thiserror = "*"
tracing = "0.1"
tracing-subscriber = "0.3"
tracing-appender = "0.2"
uuid = { version = "1", features = ["v4"] }
lazy_static = "1"
log = "0.4"
env_logger = "*"

[dev-dependencies]
tempfile = "3"
