[package]
name = "rollbar_resolve"
version = "0.1.0"
edition = "2021"
publish = false

[dependencies]
serde_json = "*"
anyhow = "*"
clap = { version = "*", features = ["derive"] }
reqwest = { version = "*", default-features = false }
