[package]
name = "ws_handshake"
version = "0.1.0"
edition = "2021"
publish = false

[dependencies]
base64 = "*"
rand = "*"
sha1 = "*"
url = "*"
tokio = { version = "*", features = ["full"] }
tokio-stream = "*"
