[package]
name = "tick_executor"
version = "0.1.0"
edition = "2021"
publish = false

[dependencies]
crossbeam-channel = "*"
waker-fn = "*"
bevy = { version = "*", default-features = false }
