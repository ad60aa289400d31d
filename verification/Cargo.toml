[package]
name = "cage_bro"
version = "0.1.0"
edition = "2021"
publish = false

[dependencies]
shell-words = "1"
uuid = { version = "1", features = ["v4"] }
serde = { version = "1", features = ["derive"] }
serde_json = "1"
tokio = { version = "1", features = ["full"] }
axum = { version = "0.8", features = ["ws"] }
anyhow = "1"
clap = { version = "4", features = ["derive"] }
futures-util = "0.3"
libc = "0.2"
mime_guess = "2"
portable-pty = "0.8"
reqwest = { version = "0.12", default-features = false, features = ["rustls-tls"] }
rust-embed = "8"
thiserror = "2"
tracing = "0.1"
tokio-tungstenite = "0.26"
async-trait = "0.1"
