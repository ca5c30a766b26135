[package]
name = "trcc"
version = "0.1.0"
edition = "2021"
publish = false

[dependencies]
anyhow = "1"
bytemuck = "1"
clap = { version = "4", features = ["derive"] }
hexdump = "0.1"
rusb = "0.9"
serde = { version = "1", features = ["derive"] }
toml = "0.8"
