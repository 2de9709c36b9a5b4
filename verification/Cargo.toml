[package]
name = "rpot"
version = "0.1.0"
edition = "2021"
publish = false

[dependencies]
anyhow = "1"
reqwest = { version = "0.12", default-features = false, features = ["json", "rustls-tls"] }
serde = { version = "1", features = ["derive"] }
strip-ansi-escapes = "0.2"
tokio = { version = "1", features = ["full"] }
