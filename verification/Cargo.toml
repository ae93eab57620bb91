[package]
name = "doorways"
version = "0.1.0"
edition = "2021"
publish = false

[dependencies]
anyhow = "*"
clap = "*"
dirs = "*"
serde = { version = "*", features = ["derive"] }
serde_json = "*"
