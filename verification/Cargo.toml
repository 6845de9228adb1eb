[package]
name = "gdml_studio"
version = "0.1.0"
edition = "2021"
publish = false

[dependencies]
quick-xml = "*"
axum = "*"
tokio = { version = "1", features = ["rt-multi-thread", "net", "sync", "time", "macros"] }
tower-http = { version = "*", features = ["cors", "fs"] }
serde = { version = "1", features = ["derive"] }
serde_json = "1"
evalexpr = "*"
tracing = "0.1"
tracing-subscriber = "0.3"
open = "*"
