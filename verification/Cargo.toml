[package]
name = "api_kit"
version = "0.1.0"
edition = "2021"
publish = false

[dependencies]
base64 = "0.22"
bytes = "1"
http = "1"
serde = "1"
serde_json = "1"
serde_urlencoded = "0.7"
thiserror = "2"
displaydoc = "0.2"
