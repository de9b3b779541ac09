[package]
name = "dlp_supervisor"
version = "0.1.0"
edition = "2021"
publish = false

[dependencies]
regex = "1"
serde = { version = "1", features = ["derive"] }
serde_json = "1"
lazy_static = "1"
tokio = { version = "1", features = ["rt"] }
reqwest = { version = "0.12", default-features = false, features = ["json"] }
