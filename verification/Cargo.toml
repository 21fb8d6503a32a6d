[package]
name = "g3_egress"
version = "0.1.0"
edition = "2021"
publish = false

[dependencies]
ahash = "0.8"
arc-swap = "1"
rustls = { version = "0.23", default-features = false, features = ["ring", "std"] }
rmpv = "1"
yaml-rust = "0.4"
ip_network = "0.4"
once_cell = "1"
tokio = { version = "1", features = ["io-util", "net", "rt", "time", "macros"] }
anyhow = "1"
slog = "2"
