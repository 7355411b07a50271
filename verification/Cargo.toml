[package]
name = "huggian_client"
version = "0.4.0"
edition = "2021"
publish = false

[dependencies]
axum = { version = "0.7", default-features = false, features = ["json"] }
chrono = { version = "0.4", default-features = false, features = ["std", "clock"] }
hex = "0.4"
hmac = "0.12"
rand = "0.8"
reqwest = { version = "0.12", default-features = false, features = ["json"] }
serde = { version = "1", features = ["derive"] }
serde_json = "1"
sha2 = "0.10"
thiserror = "1"
tokio = { version = "1", features = ["sync", "time"] }
uuid = { version = "1", features = ["serde"] }
