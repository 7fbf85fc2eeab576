[package]
name = "openclaw_linux"
version = "0.1.0"
edition = "2021"
publish = false

[dependencies]
serde_json = "1"
json5 = "0.4"
base64 = "0.22"
sha2 = "0.10"
ed25519-dalek = { version = "2", features = ["pkcs8"] }
pem = "3"
serde = { version = "1", features = ["derive"] }
log = "0.4"
tokio = { version = "1", features = ["full"] }
tokio-tungstenite = "*"
futures-util = { version = "0.3", features = ["sink"] }
url = "2"
gtk4 = "*"
webkit6 = "*"
