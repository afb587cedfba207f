[package]
name = "iso639"
version = "0.1.0"
edition = "2021"
publish = false

[dependencies]
csv = "1"
Inflector = { version = "0.11", default-features = false }
serde = { version = "1", features = ["derive"] }
