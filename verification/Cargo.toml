[package]
name = "netstack"
version = "0.1.0"
edition = "2021"
publish = false

[dependencies]
bytes = "1"
etherparse = "0.16"
futures = "0.3"
rand = "0.8"
smoltcp = "0.12"
spin = "0.9"
tokio = { version = "1", features = ["sync", "time", "macros", "rt"] }
tokio-util = "0.7"
tracing = "0.1"
