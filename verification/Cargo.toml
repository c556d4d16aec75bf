[package]
name = "typst_bot"
version = "0.1.0"
edition = "2021"
publish = false

[dependencies]
anyhow = "*"
dotenvy = "*"
html-escape = "*"
image = { version = "*", default-features = false, features = ["png"] }
matrix-sdk = { version = "*", default-features = false, features = ["rustls-tls", "sqlite"] }
mime = "*"
serde = { version = "*", features = ["derive"] }
serde_json = "*"
tokio = { version = "*", features = ["full"] }
