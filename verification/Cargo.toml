[package]
name = "backend_supervisor"
version = "0.1.0"
edition = "2021"
publish = false

[dependencies]
serde_json = { version = "=1.0.151", features = ["preserve_order"] }
reqwest = { version = "=0.13.5", default-features = false, features = ["blocking"] }
