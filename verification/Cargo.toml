[package]
name = "sf_tools"
version = "0.1.0"
edition = "2021"
publish = false

[dependencies]
dotenvy = "*"
serde = { version = "*", features = ["derive"] }
serde_json = "*"
sf-api = "*"
tokio = { version = "*", features = ["macros", "rt-multi-thread"] }
