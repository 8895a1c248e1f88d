[package]
name = "webhook_listener"
version = "0.1.0"
edition = "2021"
publish = false

[dependencies]
axum = "0.6"
frunk = "0.4"
futures = "0.3"
hyper = { version = "0.14", features = ["client", "server", "http1", "tcp", "stream"] }
log = "0.4"
reqwest = { version = "0.11", default-features = false, features = ["json", "multipart"] }
serde = { version = "1", features = ["derive"] }
serde_json = "1"
tokio = { version = "1", features = ["fs", "net", "rt", "sync"] }
tokio-stream = "0.1"
tower = "0.4"
tower-http = { version = "0.4", features = ["trace"] }
