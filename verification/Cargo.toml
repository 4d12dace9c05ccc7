[package]
name = "drtools"
version = "0.1.0"
edition = "2021"
publish = false

[dependencies]
chrono = "0.4"
rusqlite = "0.31"
serde = { version = "1", features = ["derive"] }
serde_json = "1"
thiserror = "1"
uuid = { version = "1", features = ["v4"] }
