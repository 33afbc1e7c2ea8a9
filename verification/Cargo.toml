[package]
name = "phodex-bridge"
version = "0.1.0"
edition = "2021"
publish = false

[dependencies]
aes-gcm = "0.10"
base64 = "0.22"
clap = { version = "4", features = ["derive"] }
color-eyre = "0.6"
dirs = "5"
ed25519-dalek = "2"
futures-util = "0.3"
getrandom = "0.3"
hkdf = "0.12"
hostname = "0.4"
qrcode = { version = "0.14", default-features = false }
reqwest = { version = "0.12", default-features = false, features = ["json", "multipart", "rustls-tls"] }
serde = { version = "1", features = ["derive"] }
serde_json = "1"
sha2 = "0.10"
time = { version = "0.3", features = ["formatting"] }
tokio = { version = "1", features = ["full"] }
tokio-tungstenite = { version = "0.26", features = ["rustls-tls-webpki-roots"] }
url = "2"
uuid = { version = "1", features = ["v4"] }
walkdir = "2"
x25519-dalek = { version = "2", features = ["static_secrets"] }
