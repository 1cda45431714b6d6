[package]
name = "standalone_router"
version = "0.1.0"
edition = "2021"
publish = false

[dependencies]
anyhow = "1"
async-trait = "0.1"
axum = "0.8"
futures = "0.3"
reqwest = { version = "0.12", default-features = false, features = ["stream"] }
serde_json = "1"
tokio = { version = "1", features = ["net", "rt-multi-thread"] }
tracing = "0.1"
uuid = { version = "1", features = ["v4"] }
