[package]
name = "device_scheduler"
version = "0.1.0"
edition = "2021"
publish = false

[dependencies]
chrono = { version = "=0.4.45", features = ["serde"] }
async-std = "=1.13.2"
futures = "=0.3.34"
serde = { version = "=1.0.229", features = ["derive"] }
serde_json = "=1.0.154"
reqwest = { version = "=0.13.5", default-features = false, features = ["blocking", "json"] }
dotenv = "=0.15.0"
