[package]
name = "crypto_service"
version = "0.1.0"
edition = "2021"
publish = false

[dependencies]
littlefs2 = "=0.8.1"
heapless = "=0.8.0"
heapless-bytes = "=0.4.0"
serde = { version = "1", default-features = false, features = ["derive"] }
serde-indexed = "=0.2.0"
