[package]
name = "pathtracer"
version = "0.1.0"
edition = "2021"
publish = false

[dependencies]
chrono = "0.4"
image = { version = "0.25", default-features = false, features = ["png"] }
rand = "0.8"
rayon = "1"
serde = { version = "1", features = ["derive"] }
serde_with = "3"
