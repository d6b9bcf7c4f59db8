[package]
name = "sideswap_manager"
version = "0.1.0"
edition = "2021"
publish = false

[dependencies]
aes-gcm-siv = "=0.11.1"
anyhow = "=1.0.104"
elements = { version = "=0.27.0", features = ["base64"] }
futures = "=0.3.34"
log = "=0.4.34"
rand = "=0.8.8"
serde = { version = "=1.0.229", features = ["derive"] }
serde_json = "=1.0.154"
sqlx = { version = "*", default-features = false, features = ["runtime-tokio", "sqlite"] }
tokio = { version = "=1.54.1", features = ["macros", "net", "rt", "rt-multi-thread", "signal", "sync", "time"] }
tokio-tungstenite = "=0.30.0"
