[package]
name = "neen_desktop_agent"
version = "0.1.0"
edition = "2021"
publish = false

[dependencies]
regex = "=1.13.1"
chrono = "=0.4.45"
hound = "=3.5.1"
image = { version = "=0.25.10", default-features = false, features = ["png"] }
base64 = "=0.22.1"
serde = { version = "=1.0.229", features = ["derive"] }
serde_json = "=1.0.154"
toml = "=0.8.23"
dirs = "=5.0.1"
anyhow = "=1.0.104"
log = "=0.4.35"
reqwest = { version = "=0.12.28", default-features = false, features = ["json", "rustls-tls"] }
tokio = { version = "=1.54.1", features = ["full"] }
futures = "=0.3.34"
tokio-tungstenite = "=0.21.0"
rdev = "0.5"
