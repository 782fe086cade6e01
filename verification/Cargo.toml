[package]
name = "tachyon"
version = "0.1.0"
edition = "2021"
publish = false

[dependencies]
serde_json = "1"
url = "2"
uuid = { version = "1", features = ["v5"] }
http = "1"
tokio = { version = "1", features = ["time", "rt", "sync"] }
