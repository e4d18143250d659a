[package]
name = "rbucket"
version = "0.1.0"
edition = "2021"
publish = false

[dependencies]
warp = { version = "0.3", default-features = false, features = ["multipart"] }
hyper = { version = "0.14", features = ["server", "tcp", "http1", "http2"] }
http = "0.2"
tokio = { version = "1", features = ["full"] }
uuid = { version = "0.8", features = ["v4"] }
jsonwebtoken = "8"
serde = { version = "1", features = ["derive"] }
serde_json = "1"
bytes = "1"
futures = "0.3"
tracing = { version = "0.1", features = ["log"] }
tracing-subscriber = "0.3"
chrono = "0.4"
