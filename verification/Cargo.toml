[package]
name = "pbd"
version = "0.1.0"
edition = "2021"
publish = false

[dependencies]
anyhow = "1"
serde = { version = "1", features = ["derive"] }
serde_json = "1"
ureq = "2"

[dev-dependencies]
mockito = "0.31"
