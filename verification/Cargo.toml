[package]
name = "printer_monitor"
version = "0.1.0"
edition = "2021"
publish = false
rust-version = "1.95"

[dependencies]
axum = { version = "0.8", default-features = false, features = ["http1", "tokio"] }
bytes = "1"
chrono = { version = "=0.4.45", default-features = false, features = ["clock"] }
dotenvy = "0.15"
dptree = "=0.5.1"
futures = "0.3"
jpeg-encoder = "=0.7.1"
openh264 = "=0.9.9"
reqwest = { version = "0.12", default-features = false, features = ["json", "rustls-tls"] }
retina = "=0.4.21"
serde = { version = "1", features = ["derive"] }
# Held back for teloxide, which depends on it: from 0.1.2 on it needs a newer compiler than 1.95.
takecell = "<0.1.2"
teloxide = { version = "=0.17.0", default-features = false, features = ["macros", "rustls", "ctrlc_handler"] }
thiserror = "2"
tokio = { version = "1", features = ["full"] }
tokio-util = "0.7"
toml = "0.8"
tracing = "0.1"
tracing-subscriber = { version = "0.3", features = ["env-filter"] }
url = "=2.5.8"
