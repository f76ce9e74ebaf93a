[package]
name = "openssl_lite"
version = "0.1.0"
edition = "2021"
publish = false

[dependencies]
tokio = { version = "1", features = ["net", "rt-multi-thread", "io-util", "io-std"] }
pin-project-lite = "0.2"
