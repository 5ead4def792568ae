[package]
name = "warpinator_lib"
version = "0.1.0"
edition = "2021"
publish = false

[dependencies]
base64 = "0.22"
chrono = "0.4"
crypto_secretbox = "0.1"
hostname = "0.4"
local-ip-address = "0.6"
mdns-sd = "*"
mime_guess = "2"
rand = "0.8"
rsa = { version = "0.9", features = ["sha2"] }
serde = { version = "1", features = ["derive"] }
serde_json = "1"
sha2 = "0.10"
thiserror = "2"
tokio = { version = "1", features = ["full"] }
tracing = "0.1"
tracing-subscriber = "0.3"
uuid = { version = "1", features = ["v4"] }
whoami = "1"
x509-cert = { version = "0.2", features = ["builder", "pem"] }
