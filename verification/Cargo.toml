[package]
name = "bolt_core"
version = "0.12.5"
edition = "2021"
publish = false

[dependencies]
uuid = { version = "1", features = ["v4"] }
serde = { version = "1", features = ["derive"] }
serde_json = "1"
tungstenite = "0.20"
url = "2"
reqwest = { version = "0.11", default-features = false, features = ["rustls-tls"] }
tokio = { version = "1", features = ["rt"] }
webbrowser = "0.8"
clipboard = "0.5"
dirs = "5"
zip = { version = "0.6", default-features = false, features = ["deflate"] }
