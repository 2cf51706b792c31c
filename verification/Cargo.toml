[package]
name = "otari"
version = "0.1.0"
edition = "2021"
publish = false

[dependencies]
serde = { version = "1", features = ["derive"] }
serde_json = "1"
reqwest = { version = "0.12", default-features = false, features = ["json", "multipart", "stream", "rustls-tls"] }
reqwest-eventsource = "0.6"
futures = "0.3"
bytes = "1"
thiserror = "1"
