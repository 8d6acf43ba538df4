[package]
name = "typed_session"
version = "0.1.0"
edition = "2021"
publish = false

[dependencies]
blake3 = "=1.8.7"
rand = "=0.8.8"
chrono = "=0.4.45"
