[package]
name = "bevy_verified"
version = "0.1.0"
edition = "2021"
publish = false

[dependencies]
hashbrown = "0.14"
uuid = { version = "1", features = ["v4"] }
syn = { version = "2", features = ["full"] }
quote = "1"
proc-macro2 = "1"
backtrace = "0.3"
tracing-error = "0.2"
