[package]
name = "mue_engine"
version = "0.1.0"
edition = "2021"
publish = false

[dependencies]
blake2 = "0.10"
hex = "0.4"
axum = "0.6"
serde = { version = "1", features = ["derive"] }
serde_json = "1"
chrono = "0.4"
tokio = { version = "1", features = ["rt-multi-thread", "macros", "net", "time"] }
tower-http = { version = "0.4", features = ["cors", "timeout"] }
dotenvy = "0.15"
rand = "0.8"
reqwest = { version = "0.11", default-features = false, features = ["blocking", "json"] }
