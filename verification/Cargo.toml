[package]
name = "screen_edge"
version = "0.1.0"
edition = "2021"
publish = false

[dependencies]
anyhow = "1"
enigo = "*"
env_logger = "*"
log = "0.4"
rdev = "*"
tokio = { version = "1", features = ["rt-multi-thread", "macros"] }
