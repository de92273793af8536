[package]
name = "helix-anywhere"
version = "0.1.1"
edition = "2021"
publish = false

[dependencies]
anyhow = "1"
arboard = { version = "3", default-features = false }
cocoa = "0.26"
core-foundation = "0.10"
core-graphics = "0.24"
directories = "5"
env_logger = "0.11"
log = "0.4"
objc = "0.2"
serde = { version = "1", features = ["derive"] }
tempfile = "3"
toml = "0.8"
