[package]
name = "bittrex"
version = "0.1.0"
edition = "2021"
publish = false

[dependencies]
hmac = "*"
sha2 = "*"
hex = "*"
chrono = "*"
serde = { version = "*", features = ["derive"] }
serde_json = "*"
ureq = { version = "2", features = ["json"] }
