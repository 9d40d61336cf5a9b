[package]
name = "rawst"
version = "0.1.0"
edition = "2021"
publish = false

[dependencies]
mysql = { version = "*", default-features = false, features = ["minimal-rust"] }
reqwest = { version = "*", default-features = false }
rocket = { version = "=0.5.2", features = ["json"] }
serde = { version = "=1.0.229", features = ["derive"] }
serde_json = { version = "=1.0.154", features = ["float_roundtrip"] }
sqlx = { version = "=0.8.6", default-features = false, features = ["mysql", "postgres", "runtime-tokio"] }
thiserror = "=1.0.69"
tokio = { version = "=1.54.1", features = ["rt-multi-thread", "time", "macros"] }
whoami = "=1.6.1"
