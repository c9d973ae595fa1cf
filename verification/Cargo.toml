[package]
name = "astra"
version = "0.1.0"
edition = "2021"
publish = false

[dependencies]
base64 = "0.22"
chrono = "0.4"
fastrand = "2"
libc = "0.2"
nix = { version = "0.29", features = ["term"] }
reqwest = { version = "0.12", default-features = false, features = ["json"] }
serde = { version = "1", features = ["derive"] }
serde_json = "1"
sha2 = "0.10"
tokio = { version = "1", features = ["io-util", "net", "rt", "sync", "time"] }
tokio-stream = "0.1"
url = "2"
uuid = { version = "1", features = ["v4"] }
