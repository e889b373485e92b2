[package]
name = "activity_export"
version = "0.1.0"
edition = "2021"
publish = false

[dependencies]
csv = "=1.4.0"
octocrab = "=0.47.1"
reqwest = "=0.13.5"
chrono = "=0.4.45"
serde = { version = "=1.0.229", features = ["derive"] }
