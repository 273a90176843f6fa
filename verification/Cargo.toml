[package]
name = "asterisk_rs"
version = "0.1.0"
edition = "2021"
publish = false

[dependencies]
bytes = "1"
md-5 = "0.10"
zeroize = "1"
url = "2"
tokio = { version = "1", features = ["full"] }
tokio-util = { version = "0.7", features = ["codec"] }
futures-util = { version = "0.3", features = ["sink"] }
serde = { version = "1", features = ["derive"] }
serde_json = "1"
thiserror = "2"
tracing = "0.1"
