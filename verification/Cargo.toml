[package]
name = "terrain_core"
version = "0.1.0"
edition = "2021"
publish = false

[dependencies]
noise = { version = "=0.9.0", features = ["images"] }
directories = "=6.0.0"
serde = { version = "=1.0.229", features = ["derive"] }
serde_yaml = "=0.9.34"
