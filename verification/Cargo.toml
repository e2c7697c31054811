[package]
name = "nanwei_api_rust"
version = "0.1.0"
edition = "2021"
publish = false

[dependencies]
anyhow = "1"
env_logger = "0.10"
futures = "0.3"
lazy_static = "1.4"
libc = "0.2"
log = "0.4"
mio = { version = "0.8", features = ["os-poll", "net"] }
quiche = { version = "=0.14.0", default-features = false }
ring = "=0.16.20"
serde = { version = "1", features = ["derive"] }
serde_json = "1"
tokio = { version = "1", features = ["rt-multi-thread", "macros", "sync", "time"] }
