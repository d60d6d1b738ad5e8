[package]
name = "spring_cloud_config"
version = "0.1.0"
edition = "2021"
publish = false

[dependencies]
reqwest = "0.12"
serde = "1"
serde_json = "1"
thiserror = "1"
tokio = { version = "1", features = ["sync"] }
