[package]
name = "moonlight_web"
version = "0.1.0"
edition = "2021"
publish = false

[dependencies]
rand = "0.8"
log = { version = "0.4", features = ["serde"] }
serde = { version = "1", features = ["derive"] }
serde_json = "1"
bytes = { version = "1", features = ["serde"] }
pem = { version = "3", features = ["serde"] }
tokio = { version = "1", features = ["rt-multi-thread", "macros", "process", "io-util", "io-std", "sync"] }
actix-web = { version = "4", default-features = false, features = ["macros"] }
actix-ws = "0.3"
anyhow = "1"
thiserror = "1"
simplelog = "0.12"
