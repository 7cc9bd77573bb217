[package]
name = "komari_tg_bot"
version = "0.1.0"
edition = "2021"
rust-version = "1.95"
publish = false

[dependencies]
axum = "=0.8.9"
futures = "=0.3.34"
log = "=0.4.34"
reqwest = { version = "=0.12.28", default-features = false, features = ["json"] }
serde = { version = "=1.0.229", features = ["derive"] }
serde_json = "=1.0.154"
simple_logger = "=5.2.0"
sqlx = { version = "=0.8.6", default-features = false, features = ["sqlite", "runtime-tokio", "derive"] }
# Not called from this crate: teloxide-core asks for takecell 0.1, and the
# release after 0.1.1 needs a newer compiler than rust-version above.
takecell = "=0.1.1"
teloxide = { version = "=0.17.0", default-features = false, features = ["ctrlc_handler"] }
tokio = { version = "=1.54.1", features = ["full"] }
tokio-tungstenite = "=0.30.0"
urlencoding = "=2.1.3"
uuid = { version = "=1.29.0", features = ["v4"] }
