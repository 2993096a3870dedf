[package]
name = "sjcl"
version = "0.1.0"
edition = "2021"
publish = false

[dependencies]
aes = "0.7"
base64 = "0.13"
ccm = "0.4"
password-hash = "0.2"
pbkdf2 = { version = "0.8", features = ["simple"] }
serde_json = "1"
