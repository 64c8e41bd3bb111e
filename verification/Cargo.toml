[package]
name = "status_float"
version = "0.1.0"
edition = "2021"
publish = false

[dependencies]
image = { version = "=0.25.10", default-features = false, features = ["gif", "png"] }
serde = { version = "1", features = ["derive"] }
serde_json = "1"
dirs = "5"
