[package]
name = "slp"
version = "0.1.0"
edition = "2021"
publish = false

[dependencies]
peppi = "=2.1.2"
parquet = "=60.0.0"
arrow2 = { version = "=0.17.4", features = ["io_ipc", "io_ipc_compression"] }
clap = "=4.6.7"
log = "=0.4.34"
env_logger = "=0.11.11"
atty = "=0.2.14"
serde_json = "=1.0.151"
tempfile = "=3.27.0"
xxhash-rust = { version = "=0.8.19", features = ["xxh3"] }
