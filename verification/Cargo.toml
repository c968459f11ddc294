[package]
name = "crypto_sniper"
version = "0.1.0"
edition = "2021"
publish = false

[dependencies]
rust_decimal = "=1.43.0"
chrono = { version = "=0.4.45", features = ["serde"] }
anyhow = "=1.0.104"
log = "=0.4.34"
env_logger = "=0.10.2"
reqwest = { version = "=0.11.27", default-features = false, features = ["json", "rustls-tls"] }
serde = { version = "=1.0.229", features = ["derive"] }
serde_json = "=1.0.154"
teloxide = { version = "=0.12.2", default-features = false, features = ["macros", "ctrlc_handler", "rustls"] }
dptree = "=0.3.0"
tokio = { version = "=1.54.1", features = ["full"] }
sqlx = { version = "=0.7.4", default-features = false, features = ["runtime-tokio-rustls", "sqlite"] }
# Comes in with teloxide; held at 0.1.1 because 0.1.2 asks for rustc 1.96.
takecell = "=0.1.1"
