[package]
name = "raywatch_geyser"
version = "0.1.0"
edition = "2021"
publish = false

[dependencies]
rdkafka = { version = "=0.39.0", default-features = false }
serde = { version = "=1.0.229", features = ["derive"] }
serde_json = "=1.0.151"
log = "=0.4.34"
