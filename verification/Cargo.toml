[package]
name = "tardis_rs"
version = "0.1.0"
edition = "2021"
publish = false

[dependencies]
urlencoding = "*"
serde = { version = "*", features = ["derive"] }
serde_json = "*"
thiserror = "*"
chrono = { version = "*", features = ["serde"] }
tokio = { version = "*", features = ["full"] }
tokio-tungstenite = "*"
futures-util = "*"
async-stream = "*"
reqwest = { version = "*", default-features = false, features = ["json"] }
tracing = "*"
