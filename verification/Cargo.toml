[package]
name = "spacecan"
version = "0.1.0"
edition = "2021"
publish = false

[dependencies]
serde = { version = "=1.0.229", features = ["derive"] }
serde_json = "=1.0.151"
anyhow = "=1.0.104"
bxcan = "*"
embedded-hal = "0.2"
nb = "*"
socketcan = "*"
