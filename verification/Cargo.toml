[package]
name = "mock_igd"
version = "0.1.0"
edition = "2021"
publish = false

[dependencies]
axum = "*"
quick-xml = "*"
socket2 = "*"
thiserror = "*"
tokio = { version = "*", features = ["rt", "rt-multi-thread", "net", "sync", "time", "macros"] }
tracing = "*"
