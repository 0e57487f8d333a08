[package]
name = "lightpub"
version = "0.1.0"
edition = "2021"
publish = false

[dependencies]
uuid = { version = "1", features = ["v4", "v7"] }
bcrypt = "0.15"
urlencoding = "2"
rand = "0.8"
linked-hash-map = "0.5"
base64 = "0.22"
scraper = "*"
chrono = "0.4"
serde = { version = "1", features = ["derive"] }
serde_json = "1"
serde_yaml = "0.9"
rsa = { version = "0.9", features = ["sha2"] }
