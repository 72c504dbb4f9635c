[package]
name = "taitan"
version = "0.1.0"
edition = "2021"
publish = false

[dependencies]
uuid = "1"
chrono = "0.4"
axum = { version = "0.7", features = ["multipart"] }
axum-extra = { version = "0.9", features = ["typed-header"] }
bytes = "1"
clap = { version = "4", features = ["derive"] }
derive_builder = "0.20"
derive-new = "0.6"
futures = "0.3"
headers = "0.4"
http = "1"
http-body-util = "0.1"
hyper = "1"
jsonwebtoken = "9"
once_cell = "1"
rand = "0.8"
reqwest = { version = "0.12", default-features = false }
serde = { version = "1", features = ["derive"] }
serde-inline-default = "0.2"
serde_json = "1"
thiserror = "1"
tokio = { version = "1", features = ["full"] }
tokio-util = { version = "0.7", features = ["io"] }
toml = "0.8"
tonic = "0.12"
tower = { version = "0.4", features = ["make", "util"] }
tower-http = { version = "0.5", features = ["fs", "trace"] }
tracing = "0.1"
tracing-subscriber = "0.3"
