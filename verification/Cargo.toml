[package]
name = "manga_sources"
version = "0.1.0"
edition = "2021"
publish = false

[dependencies]
chrono = { version = "0.4", default-features = false, features = ["alloc"] }
hashbrown = "0.15"
serde = { version = "1", features = ["derive"] }
serde_json = "1"
