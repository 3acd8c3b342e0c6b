[package]
name = "temporal_core"
version = "0.1.0"
edition = "2021"
publish = false

[dependencies]
num-bigint = "=0.4.8"
num-traits = "=0.2.19"
ixdtf = { version = "=0.3.0", features = ["duration"] }
diplomat = "=0.9.0"
diplomat-runtime = "=0.9.0"
