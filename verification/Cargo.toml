[package]
name = "tee_integrity"
version = "0.1.0"
edition = "2021"
publish = false

[dependencies]
alloy-primitives = { version = "*", default-features = false, features = ["std", "serde"] }
k256 = { version = "0.13", default-features = false, features = ["std", "ecdsa", "serde"] }
serde = { version = "1", features = ["derive"] }
