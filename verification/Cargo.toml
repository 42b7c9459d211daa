[package]
name = "credit_numerals"
version = "0.1.0"
edition = "2021"
publish = false

[dependencies]
futures-util = "0.3"
grammers-client = "*"
grammers-session = "*"
grammers-tl-types = "*"
log = "0.4"
simple_logger = "*"
skia-safe = "*"
tokio = { version = "1", features = ["rt", "signal", "io-util"] }
