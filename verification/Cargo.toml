[package]
name = "rrt"
version = "0.1.0"
edition = "2021"
publish = false

[dependencies]
image = "0.25"
indicatif = "0.17"
rand = "0.8"
rayon = "1"
serde = { version = "1", features = ["derive"] }
toml = "0.8"
