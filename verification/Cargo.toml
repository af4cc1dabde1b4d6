[package]
name = "cbadv"
version = "0.1.0"
edition = "2021"
publish = false

[dependencies]
hex = "*"
hmac = "*"
sha2 = "*"
serde = { version = "*", features = ["derive"] }
serde_json = "*"
reqwest = { version = "*", default-features = false, features = ["json"] }
