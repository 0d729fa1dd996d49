[package]
name = "mediapulse"
version = "0.1.0"
edition = "2021"
publish = false

[dependencies]
serde = { version = "1", features = ["derive"] }
serde_json = "1"
thiserror = "*"
libc = "0.2"
rsmpv = "*"

[dev-dependencies]
tempfile = "3"
