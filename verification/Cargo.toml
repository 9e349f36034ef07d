[package]
name = "matrixon_service"
version = "0.1.0"
edition = "2021"
publish = false

[dependencies]
sha2 = "=0.10.9"
base64 = "=0.22.1"
flate2 = "=1.1.10"
urlencoding = "=2.1.3"
uuid = { version = "=1.29.0", features = ["v4"] }
rand = "=0.8.8"
humantime = "=2.4.0"
tokio = { version = "=1.54.1", features = ["sync", "time", "rt", "macros"] }
serde = { version = "=1.0.229", features = ["derive"] }
serde_json = "=1.0.154"
url = "=2.5.8"
ruma-identifiers-validation = "=0.14.0"
reqwest = { version = "0.12", default-features = false, features = ["json"] }
tracing = "0.1"
