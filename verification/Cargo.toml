[package]
name = "wa_judge"
version = "0.1.0"
edition = "2021"
publish = false

[dependencies]
libc = "0.2"
log = "0.4"
env_logger = { version = "0.7", default-features = false }
serde = { version = "1", features = ["derive"] }
serde_json = "1"
structopt = "0.3"
crossbeam-channel = "0.5"
lazy_static = "1"
r2d2 = "0.8"
r2d2_redis = "0.14"
thiserror = "1"
