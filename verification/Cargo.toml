[package]
name = "neon_storage"
version = "0.1.0"
edition = "2021"
publish = false

[dependencies]
anyhow = "1.0"
aws-config = { version = "1.3", default-features = false, features = ["rustls", "rt-tokio"] }
aws-sdk-s3 = "1.26"
azure_core = { version = "0.19", default-features = false }
bytes = "1.0"
camino = "1.1.6"
clap = { version = "4.0", features = ["derive"] }
diesel = { version = "2.1.4", features = ["postgres"] }
diesel_migrations = { version = "2.1.0", features = ["postgres"] }
fail = "0.5.0"
futures = "0.3"
humantime = "2.1"
hyper = { version = "0.14", features = ["server", "http1", "tcp", "stream"] }
reqwest = { version = "0.12", default-features = false, features = ["rustls-tls", "stream"] }
routerify = "3"
serde = { version = "1.0", features = ["derive"] }
thiserror = "1.0"
tokio = { version = "1.17", features = ["full"] }
tokio-util = { version = "0.7.10", features = ["io"] }
tracing = "0.1"
tracing-appender = "0.2"
tracing-subscriber = { version = "0.3", features = ["env-filter"] }
