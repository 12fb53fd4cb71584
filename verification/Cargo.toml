[package]
name = "harmonia"
version = "0.1.0"
edition = "2021"
publish = false

[dependencies]
actix-web = { version = "4", default-features = false }
awc = { version = "3", default-features = false }
libnixstore = "*"
mime = "0.3"
serde = { version = "1", features = ["derive"] }
tokio-stream = "0.1"
