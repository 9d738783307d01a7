[package]
name = "youngoor"
version = "0.1.0"
edition = "2021"
publish = false

[dependencies]
url = "=2.5.8"
http = "=1.5.0"
reqwest = { version = "0.12", default-features = false, features = ["json"] }
serde = { version = "1", features = ["derive"] }
thiserror = "2"
futures = "0.3"
async-stream = "0.3"
