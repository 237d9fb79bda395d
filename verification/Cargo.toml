[package]
name = "lotus_events"
version = "0.1.0"
edition = "2021"
publish = false

[dependencies]
rand = "*"
serde = { version = "*", features = ["derive"] }
serde_json = "*"
toml = "*"
csv = "*"
anyhow = "*"
