[package]
name = "panic_handler"
version = "0.1.0"
edition = "2021"
publish = false

[dependencies]
native-dialog = "*"
bevy = { version = "*", default-features = false }
