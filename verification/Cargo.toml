[package]
name = "async_smoltcp"
version = "0.1.0"
edition = "2021"
publish = false

[dependencies]
smoltcp = "=0.8.2"
crossbeam-channel = "=0.5.17"
futures = "=0.3.34"
tokio = { version = "1", features = ["io-util", "rt", "rt-multi-thread", "macros", "time"] }
rand = "=0.8.8"
etherparse = "=0.9.0"
log = "0.4"
