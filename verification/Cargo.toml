[package]
name = "axiston"
version = "0.1.0"
edition = "2021"
publish = false

[dependencies]
reqwest = { version = "0.12", default-features = false }
serde = { version = "1", features = ["derive"] }
thiserror = "1"
url = "2"

[dev-dependencies]
tokio = { version = "1", features = ["rt"] }
