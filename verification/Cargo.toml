[package]
name = "edustell"
version = "0.1.0"
edition = "2021"
publish = false

[dependencies]
uuid = { version = "=1.29.0", features = ["v4", "serde"] }
chrono = { version = "=0.4.45", features = ["serde"] }
sha2 = "=0.10.9"
serde = { version = "=1.0.229", features = ["derive"] }
serde_json = "=1.0.154"
jsonwebtoken = "=9.3.1"
argon2 = { version = "=0.5.3", features = ["std"] }
async-trait = "=0.1.92"
thiserror = "=1.0.69"
tokio = { version = "=1.54.1", features = ["rt", "sync", "macros"] }
