[package]
name = "usos_core"
version = "0.1.0"
edition = "2021"
publish = false

[dependencies]
anyhow = "1"
base64 = "0.22"
dotenvy = "0.15"
heck = "0.5"
rand = "0.8"
ring = "0.17"
secrecy = "0.8"
serde = { version = "1", features = ["derive"] }
serde_json = "1"
thiserror = "1"
