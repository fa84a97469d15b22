[package]
name = "geckopanda"
version = "0.1.0"
edition = "2021"
publish = false

[dependencies]
aes-gcm = "=0.10.3"
sha2 = "=0.10.9"
rand = "=0.8.8"
rust-s3 = { version = "=0.38.0", default-features = false, features = ["tokio-rustls-tls"] }
anyhow = "1"
async-trait = "0.1"
tokio = { version = "1", default-features = false, features = ["rt-multi-thread"] }
toml = "*"
serde = { version = "1", features = ["derive"] }
google-drive3 = "=5.0.5"
mime = "0.3"
tempfile = "3"
webbrowser = "*"
