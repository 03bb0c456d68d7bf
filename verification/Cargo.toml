[package]
name = "bdk_floresta"
version = "0.1.0"
edition = "2021"
publish = false

[dependencies]
anyhow = "*"
bitcoin = "0.32"
chrono = "*"
fern = { version = "*", features = ["colored"] }
floresta-chain = "*"
floresta-wire = "*"
futures-channel = "*"
log = "*"
rustreexo = "*"
tokio = { version = "*", features = ["rt-multi-thread", "macros", "signal", "sync", "time"] }
