[package]
name = "satint"
version = "0.1.0"
edition = "2021"
publish = false

[dependencies]
rand = { version = "*", default-features = false }
serde = { version = "1", default-features = false }
