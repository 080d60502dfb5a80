[package]
name = "legion_prof"
version = "0.1.0"
edition = "2021"
publish = false

[dependencies]
flate2 = "1"
nom = "7"
serde = { version = "1", features = ["derive"] }
