[package]
name = "talon_control"
version = "0.1.0"
edition = "2021"
publish = false

[dependencies]
urlencoding = "=2.1.3"
sha2 = "=0.10.9"
minijinja = "=2.24.0"
chrono = "=0.4.45"
flate2 = "=1.1.10"
zstd = "=0.13.4"
serde_json = "=1.0.154"
toml = "=0.8.23"
serde_yaml = "=0.9.34"
anyhow = "=1.0.104"
base64 = "=0.22.1"
serde = { version = "=1.0.229", features = ["derive"] }
