[package]
name = "photo_drop"
version = "0.1.0"
edition = "2021"
publish = false

[dependencies]
tokio = { version = "1", features = ["rt-multi-thread", "net", "fs", "sync", "macros", "signal"] }
base64 = "*"
uuid = { version = "*", features = ["v4"] }
axum = { version = "*", features = ["multipart"] }
tower-http = { version = "*", features = ["cors"] }
dirs = "*"
local-ip-address = "*"
