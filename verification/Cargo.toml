[package]
name = "recemotion"
version = "0.1.0"
edition = "2021"
publish = false

[dependencies]
anyhow = "1"
bincode = "1"
clap = { version = "4", features = ["derive"] }
lazy_static = "1"
serde = { version = "1", features = ["derive"] }

[dev-dependencies]
serde_json = "1"
