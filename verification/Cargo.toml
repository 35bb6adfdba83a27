[package]
name = "iron-json-response"
version = "0.1.0"
edition = "2021"
publish = false

[dependencies]
iron = "0.6"
mime = "0.2"
rustc-serialize = "0.3"
serde = "1"
serde_json = "1"
