[package]
name = "oms-modbus"
version = "0.2.0"
edition = "2021"
publish = false

[dependencies]
bytes = "1"
tokio = { version = "1", features = ["rt", "rt-multi-thread", "net", "time", "io-util", "sync", "macros"] }
async-trait = "0.1"
futures-util = "0.3"
log = "0.4"
thiserror = "1"
