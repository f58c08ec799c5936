[package]
name = "write_only"
version = "0.1.0"
edition = "2021"
publish = false

[dependencies]
chrono = "=0.4.45"
hyper = "=0.10.16"
hyper-rustls = "0.6"
iron = "=0.6.1"
lazy_static = "=1.5.1"
logger = "=0.4.0"
params = "=0.8.0"
persistent = "=0.4.0"
postgres = { version = "=0.19.14", features = ["with-chrono-0_4", "with-uuid-1"] }
r2d2 = "=0.8.10"
r2d2_postgres = "=0.18.2"
route = "=0.2.0"
router = "0.6"
rust-crypto = "=0.2.36"
url = "=1.7.2"
uuid = "=1.29.0"
