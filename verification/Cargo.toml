[package]
name = "woodpecker"
version = "0.1.0"
edition = "2021"
publish = false

[dependencies]
serde = { version = "1", features = ["derive"] }
serde_json = "1"
cap-std = "3"
cap-fs-ext = "3"
libc = "0.2"
