[package]
name = "avscan"
version = "0.1.0"
edition = "2021"
publish = false

[dependencies]
axum = { version = "*", features = ["multipart"] }
axum-prometheus = "*"
chrono = "0.4"
config = { version = "*", default-features = false, features = ["toml"] }
crc32fast = "1"
hex = "0.4"
hyper = "1"
infer = "*"
md5 = "*"
serde = { version = "1", features = ["derive"] }
sha2 = "0.10"
tempfile = "3"
tokio = { version = "1", features = ["full"] }
tower-http = { version = "*", features = ["trace"] }
tracing = "0.1"
tracing-subscriber = "0.3"
