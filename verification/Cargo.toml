[package]
name = "portal_core"
version = "0.1.0"
edition = "2021"
publish = false

[dependencies]
env_logger = "*"
serde = "1"
tokio = { version = "1", features = ["macros", "rt"] }
zbus = "3"
