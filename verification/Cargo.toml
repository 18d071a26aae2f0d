[package]
name = "kuro"
version = "0.1.0"
edition = "2021"
publish = false

[dependencies]
anyhow = "1"
chrono = "0.4"
comrak = { version = "*", default-features = false }
gray_matter = "*"
notify = "*"
serde = { version = "1", features = ["derive"] }
serde_json = "1"
serde_yaml = "*"
tiny_http = "*"
