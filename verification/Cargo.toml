[package]
name = "mosaic_identity"
version = "0.1.0"
edition = "2021"
publish = false

[dependencies]
mosaic-core = "*"
crossterm = "*"
dirs = "*"
rpassword = "*"
serde = { version = "1", features = ["derive"] }
serde_json = "1"
