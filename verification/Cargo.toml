[package]
name = "fetch"
version = "0.1.0"
edition = "2021"
publish = false

[dependencies]
futures = "0.1"
futures-cpupool = "0.1"
hyper = "0.11"
hyper-rustls = "0.12"
log = "0.4"
parking_lot = "0.4"
tokio-core = "0.1"
