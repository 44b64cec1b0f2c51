[package]
name = "greptime_bench"
version = "0.1.0"
edition = "2021"
publish = false

[dependencies]
arrow = "=60.0.0"
parquet = "=60.0.0"
bytes = "=1.12.1"
rand = "=0.8.8"
fake = { version = "=2.10.0", features = ["time"] }
time = { version = "=0.3.55", features = ["parsing"] }
greptime-proto = "=0.1.0"
tonic = "=0.14.6"
tokio = { version = "1", features = ["rt-multi-thread", "macros"] }
