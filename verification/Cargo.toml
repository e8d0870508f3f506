[package]
name = "encoder_lib"
version = "0.1.0"
edition = "2021"
publish = false

[dependencies]
ab_glyph = "*"
anyhow = "*"
chrono = "*"
clap = { version = "*", features = ["derive"] }
image = "*"
imageproc = "*"
serde = { version = "*", features = ["derive"] }
serde_json = "*"
toml = "*"
