[package]
name = "voice_typing"
version = "0.1.0"
edition = "2021"
publish = false

[dependencies]
base64 = "=0.22.1"
hound = "=3.5.1"
reqwest = { version = "0.12", default-features = false, features = ["json", "stream", "rustls-tls"] }
serde = { version = "1", features = ["derive"] }
serde_json = "1"
arboard = { version = "3", default-features = false }
rusqlite = "0.32"
chrono = { version = "0.4", default-features = false, features = ["clock"] }
log = "0.4"
env_logger = { version = "0.11", default-features = false }
futures-util = "0.3"
thiserror = "1"
