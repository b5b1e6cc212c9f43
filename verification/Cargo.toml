[package]
name = "chat_stream"
version = "0.1.0"
edition = "2021"
publish = false

[dependencies]
serde_json = "=1.0.151"
uuid = { version = "=1.27.0", features = ["v4"] }
serde = { version = "*", features = ["derive"] }
futures-util = "*"
reqwest = { version = "*", default-features = false, features = ["json", "stream"] }
tokio = { version = "*", features = ["rt", "macros"] }
