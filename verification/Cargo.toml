[package]
name = "fluent_playground"
version = "0.1.0"
edition = "2021"
publish = false

[dependencies]
serde = { version = "1", features = ["derive"] }
serde_json = "1"
iron = "*"
router = "*"
corsware = "*"
hubcaps = "*"
tokio = { version = "0.2", features = ["full"] }
