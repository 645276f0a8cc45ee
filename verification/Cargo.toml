[package]
name = "nget"
version = "0.1.0"
edition = "2021"
publish = false

[dependencies]
url = "2"
reqwest = { version = "0.12", default-features = false, features = ["http2", "rustls-tls", "stream"] }
tokio = { version = "1", features = ["full"] }
futures = "0.3"
futures-util = "0.3"
indicatif = "0.17"
clap = { version = "4", features = ["derive"] }
hickory-resolver = "0.24"
thiserror = "1"
h2 = "0.4"
http = "1"
tokio-rustls = "0.26"
tracing-subscriber = "0.3"
env_logger = "0.11"
log = "0.4"
