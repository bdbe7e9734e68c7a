[package]
name = "moonegg-core"
version = "0.1.0"
edition = "2021"
publish = false

[dependencies]
thiserror = "2"
libc = "0.2"
ndk = { version = "0.9", features = ["audio"] }
uniffi = "0.28"
