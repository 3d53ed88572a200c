[package]
name = "ews_client_core"
version = "0.1.0"
edition = "2021"
publish = false

[dependencies]
base64 = "=0.23.1"
dashmap = "=6.2.1"
ews = "=0.1.2"
log = "=0.4.34"
mail-builder = "=0.3.2"
mail-parser = "=0.11.9"
reqwest = { version = "=0.13.5", default-features = false }
serde = { version = "=1.0.229", features = ["derive"] }
serde_json = "=1.0.151"
thiserror = "=2.0.21"
tokio = { version = "=1.53.2", default-features = false, features = ["rt", "time", "macros"] }
url = "=2.5.8"
