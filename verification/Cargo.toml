[package]
name = "vttbox"
version = "0.1.0"
edition = "2021"
publish = false

[dependencies]
byteorder = "1"
serde = { version = "1.0", features = ["derive"] }
serde_json = "1.0"
