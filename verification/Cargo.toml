[package]
name = "tracing_honeycomb"
version = "0.1.0"
edition = "2021"
publish = false

[dependencies]
chrono = "*"
eaze-tracing-distributed = "=0.2.0-eaze.7"
libhoney-rust = "*"
parking_lot = "*"
serde_json = "*"
tracing = "*"
