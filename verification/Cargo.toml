[package]
name = "tikv_telemetry"
version = "0.1.0"
edition = "2021"
publish = false

[dependencies]
async-trait = "*"
minitrace = "*"
prometheus = { version = "*", default-features = false }
prometheus-static-metric = "*"
tracing = "*"
