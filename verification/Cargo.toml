[package]
name = "agent_runtime"
version = "0.1.0"
edition = "2021"
publish = false

[dependencies]
serde = { version = "*", features = ["derive"] }
serde_json = "*"
reqwest = { version = "*", default-features = false }
futures = "*"
log = "*"
simple_logger = "*"
