[package]
name = "screenshotapp"
version = "0.1.0"
edition = "2021"
publish = false

[dependencies]
arboard = "3"
base64 = "0.22"
chrono = { version = "0.4", default-features = false, features = ["clock"] }
jpeg-decoder = { version = "0.3", default-features = false }
png = "0.17"
serde = { version = "1", features = ["derive"] }
serde_json = "1"
urlencoding = "2"
