[package]
name = "sq_streamhook"
version = "0.1.0"
edition = "2021"
publish = false

[dependencies]
rand = "0.9"
anyhow = "1"
axum = "0.8"
clap = { version = "4", features = ["derive"] }
dotenvy = "0.15"
reqwest = { version = "0.12", default-features = false, features = ["rustls-tls"] }
serde = { version = "1", features = ["derive"] }
serde_json = "1"
serde_yml = "*"
sqlx = { version = "0.8", default-features = false, features = ["sqlite", "runtime-tokio"] }
tokio = { version = "1", features = ["full"] }
tower-http = { version = "0.6", features = ["timeout"] }
