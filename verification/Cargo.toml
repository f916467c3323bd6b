[package]
name = "tcp_udp_validator"
version = "0.1.0"
edition = "2021"
publish = false

[dependencies]
sha2 = "*"
rand = "*"
tokio = { version = "*", features = ["net", "io-util", "time", "rt-multi-thread", "macros"] }
clap = { version = "*", features = ["derive"] }
anyhow = "*"
log = "*"
env_logger = "*"
chrono = "*"
hex = "*"
