[package]
name = "yep_anywhere_desktop"
version = "0.1.0"
edition = "2021"
publish = false

[dependencies]
dirs = "5"
rand = "0.8"
libc = "0.2"
portable-pty = "0.8"
tokio = { version = "1", features = ["process", "rt", "io-util"] }
serde = { version = "1", features = ["derive"] }
serde_json = "1"
flate2 = "1"
tar = "0.4"
reqwest = { version = "0.12", default-features = false, features = ["json", "rustls-tls"] }
