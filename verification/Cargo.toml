[package]
name = "embassy-ha"
version = "0.1.0"
edition = "2021"
publish = false

[dependencies]
embassy-futures = "=0.1.2"
embassy-sync = "=0.8.0"
embassy-time = "=0.5.1"
embedded-mqtt = "=0.1.0"
heapless = "=0.9.3"
serde = { version = "=1.0.229", default-features = false, features = ["derive"] }
serde-json-core = "=0.7.0"

[dev-dependencies]
embassy-time = { version = "=0.5.1", features = ["std"] }
