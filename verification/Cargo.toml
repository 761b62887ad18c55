[package]
name = "pathtracer"
version = "0.1.0"
edition = "2021"
publish = false

[dependencies]
rand = "0.8"
image = "0.24"
indicatif = "0.17"
serde = { version = "1", features = ["derive"] }
toml = "0.8"
