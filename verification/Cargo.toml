[package]
name = "stellarshot"
version = "0.1.0"
edition = "2021"
publish = false

[dependencies]
rustic_backend = { version = "=0.7.0", default-features = false }
rustic_core = { version = "=0.13.0", default-features = false }
serde = { version = "=1.0.229", features = ["derive"] }
serde_json = "=1.0.151"
