[package]
name = "bgpgg"
version = "0.1.0"
edition = "2021"
publish = false

[dependencies]
regex = "1"
libc = "0.2"
tokio = { version = "1", features = ["sync", "net", "time", "io-util", "rt", "macros"] }
tokio-stream = "0.1"
tonic = { version = "0.12", default-features = false }
uuid = "1"
