[package]
name = "lock_watch"
version = "0.1.0"
edition = "2021"
publish = false

[dependencies]
napi = { version = "2", features = ["napi4", "tokio_rt"] }
zbus = "3"
