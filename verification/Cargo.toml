[package]
name = "certstream-server"
version = "1.5.0"
edition = "2021"
publish = false

[dependencies]
axum = { version = "0.8", features = ["ws"] }
bytes = "1"
futures-util = { version = "0.3", features = ["sink"] }
metrics = "0.24"
serde = { version = "1", features = ["derive"] }
tikv-jemalloc-ctl = { version = "0.6", features = ["stats"] }
tokio = { version = "1", features = ["macros", "rt", "sync", "time"] }
tokio-stream = { version = "0.1", features = ["sync"] }
tracing = "0.1"
