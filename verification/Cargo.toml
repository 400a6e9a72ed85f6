[package]
name = "bevy_bundled"
version = "0.1.0"
edition = "2021"
publish = false

[dependencies]
heck = "0.4"
proc-macro2 = "1"
quote = "1"
syn = { version = "2", features = ["full"] }
bevy = { version = "0.11", default-features = false }
