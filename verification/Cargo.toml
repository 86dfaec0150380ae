[package]
name = "stremio_shell"
version = "0.1.0"
edition = "2021"
publish = false

[dependencies]
base64 = "0.22"
anyhow = "1"
dirs = "*"
tokio = { version = "1", features = ["fs", "rt"] }
discord-rich-presence = "*"
libc = "0.2"
tracing = "0.1"
