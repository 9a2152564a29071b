[package]
name = "afs"
version = "0.1.0"
edition = "2021"
publish = false

[dependencies]
fs-err = "*"
sha2 = "*"
tempfile = "*"
tokio = { version = "*", features = ["fs", "io-util", "rt"] }
serde = { version = "*", features = ["derive"] }
serde_json = "*"
sys-info = "*"
thiserror = "*"
