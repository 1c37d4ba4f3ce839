[package]
name = "webhook_core"
version = "0.1.0"
edition = "2021"
publish = false

[dependencies]
base64 = "0.13"
ipnetwork = "*"
uuid = { version = "*", features = ["v4"] }
serde_json = "*"
chrono = "*"
reqwest = { version = "*", default-features = false }
tokio = { version = "*", features = ["full"] }
sqlx = { version = "*", default-features = false, features = ["postgres", "runtime-tokio"] }
clap = { version = "*", features = ["derive", "env"] }
