[package]
name = "speech_core"
version = "0.1.0"
edition = "2021"
publish = false

[dependencies]
base64 = "0.13"
dotenv = "0.15"
futures-util = "*"
reqwest = { version = "*", default-features = false, features = ["json", "multipart"] }
serde = { version = "*", features = ["derive"] }
serde_json = "*"
tokio = { version = "*", features = ["rt-multi-thread", "macros", "time", "net"] }
tokio-tungstenite = "*"
