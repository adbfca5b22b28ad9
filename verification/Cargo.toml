[package]
name = "sstv_rust"
version = "0.1.0"
edition = "2021"
publish = false

[dependencies]
image = "*"
chrono = "*"
hound = "*"
serde_json = "*"
thiserror = "*"
