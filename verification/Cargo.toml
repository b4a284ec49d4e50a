[package]
name = "ruva"
version = "0.1.0"
edition = "2021"
publish = false

[dependencies]
url = "2"
uuid = { version = "1", features = ["v4"] }
serde = { version = "1", features = ["derive"] }
serde_json = "1"
http = "*"
tao = "*"
wry = "*"
gtk = "0.18"
tokio = { version = "1", features = ["rt-multi-thread", "time"] }
futures = "0.3"
chromiumoxide = "*"
