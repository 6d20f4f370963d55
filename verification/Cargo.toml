[package]
name = "authkit"
version = "0.1.0"
edition = "2021"
publish = false

[dependencies]
jsonwebtoken = "9"
base64 = "0.22"
uuid = "1"
rand = "0.8"
serde_json = "1"
