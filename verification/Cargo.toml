[package]
name = "fedora"
version = "2.1.2"
edition = "2021"
publish = false

[dependencies]
bytes = "=1.12.1"
chrono = { version = "=0.4.45", features = ["serde"] }
cookie = "=0.17.0"
cookie_store = "=0.20.0"
dirs = "=5.0.1"
log = "=0.4.34"
reqwest = { version = "=0.11.27", features = ["blocking", "cookies"] }
serde = { version = "=1.0.229", features = ["derive"] }
serde_json = "=1.0.154"
thiserror = "=1.0.69"
url = "=2.5.8"
