[package]
name = "geek_storage"
version = "0.1.0"
edition = "2021"
publish = false

[dependencies]
bytes = "*"
dashmap = "*"
rand = "*"
sha2 = "*"
hex = "*"
axum = { version = "*", features = ["multipart"] }
tokio = { version = "*", features = ["full"] }
tokio-util = { version = "*", features = ["io"] }
tower-http = { version = "*", features = ["cors", "compression-full"] }
reqwest = "*"
sqlx = { version = "*", features = ["sqlite", "runtime-tokio", "migrate", "macros"] }
chrono = "*"
dotenv = "*"
serde_json = "*"
reflink = "*"
