[package]
name = "token_cache"
version = "0.1.0"
edition = "2021"
publish = false

[dependencies]
anyhow = "1"
axum = "0.7"
base64 = "0.22"
chrono = { version = "0.4", default-features = false, features = ["std", "clock"] }
clap = { version = "4", features = ["derive", "env"] }
crossbeam-skiplist = "0.1"
futures-delay-queue = "*"
log = "0.4"
pretty_env_logger = "0.5"
pyo3 = "0.20"
pyo3-asyncio = { version = "0.20", features = ["tokio-runtime", "attributes"] }
tokio = { version = "1", features = ["full"] }
