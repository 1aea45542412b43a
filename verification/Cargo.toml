[package]
name = "silver_node"
version = "0.1.0"
edition = "2021"
publish = false

[dependencies]
prometheus = "0.13"
serde = { version = "1", features = ["derive"] }
thiserror = "1"
tokio = { version = "1", features = ["sync", "time", "rt", "macros"] }

[dev-dependencies]
serde_json = "1"
