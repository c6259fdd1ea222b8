[package]
name = "lcu_helper"
version = "0.1.0"
edition = "2021"
publish = false

[dependencies]
serde_json = "=1.0.151"
serde = { version = "1", features = ["derive"] }
reqwest = { version = "=0.12.28", default-features = false, features = ["rustls-tls", "json"] }
reqwest-websocket = "=0.5.1"
tokio = { version = "=1.53.2", features = ["rt-multi-thread", "macros", "time", "signal", "sync"] }
tokio-util = "=0.7.19"
futures-util = "=0.3.34"
