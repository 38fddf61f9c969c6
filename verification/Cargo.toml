[package]
name = "near-runtime-fees"
version = "0.1.0"
edition = "2021"
publish = false

[dependencies]
num-rational = { version = "0.2", default-features = false, features = ["std", "serde"] }
serde = { version = "1", features = ["derive"] }
