[package]
name = "jwt_bearer"
version = "0.1.0"
edition = "2021"
publish = false

[dependencies]
serde_json = "1"
rsa = { version = "0.9", features = ["sha2"] }
ureq = "2"

[dev-dependencies]
base64 = "0.22"
