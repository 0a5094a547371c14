[package]
name = "musicalus"
version = "0.1.0"
edition = "2021"
publish = false

[dependencies]
openssl = "0.10"
rand = "*"
base64 = "0.22"
hex = "0.4"
url = "2"
regex = "1"
serde_json = "1"
serde = { version = "1", features = ["derive"] }
axum = "0.8"
tokio = { version = "1", features = ["full"] }
reqwest = { version = "0.12", features = ["json", "cookies"] }
anyhow = "1"
thiserror = "2"
lazy_static = "1"
