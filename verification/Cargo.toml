[package]
name = "espocrm_rs"
version = "0.1.0"
edition = "2021"
publish = false

[dependencies]
base64 = "*"
hmac = "*"
sha2 = "*"
urlencoding = "*"
serde = "*"
reqwest = { version = "*", default-features = false, features = ["json"] }
