[package]
name = "gitea_forge"
version = "0.1.0"
edition = "2021"
publish = false

[dependencies]
base64 = "=0.22.1"
chrono = "=0.4.45"
color-eyre = "=0.6.5"
log = "=0.4.35"
regex = "=1.13.1"
reqwest = { version = "=0.13.5", default-features = false, features = ["charset", "http2", "json", "rustls-no-provider", "system-proxy"] }
rustls = "=0.23.46"
secrecy = "=0.10.3"
semver = "=1.0.28"
serde = { version = "=1.0.229", features = ["derive"] }
serde_json = "=1.0.154"
toml = "=1.1.8"
url = "=2.5.8"
