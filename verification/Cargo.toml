[package]
name = "tealr"
version = "0.1.0"
edition = "2021"
publish = false

[dependencies]
bstr = "1"
mlua = { version = "0.10", features = ["lua54", "vendored"] }
serde = { version = "1", features = ["derive"] }
serde_json = "1"
