[package]
name = "notifico"
version = "0.1.0"
edition = "2021"
rust-version = "1.95"
publish = false

[dependencies]
async-trait = "0.1"
minijinja = "=2.24.0"
serde = { version = "1", features = ["derive"] }
serde_json = "=1.0.154"
takecell = "<0.1.2"
teloxide = { version = "0.17", default-features = false, features = ["rustls"] }
tokio = { version = "1", features = ["rt", "macros"] }
tracing = "0.1"
utoipa = { version = "6", features = ["uuid"] }
uuid = { version = "=1.29.0", features = ["v7", "serde"] }
