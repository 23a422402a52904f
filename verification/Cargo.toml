[package]
name = "red4ext-rs"
version = "0.1.0"
edition = "2021"
publish = false

[dependencies]
heck = "0.5"
once_cell = "1"
widestring = "1"
thiserror = "1"
tracing = "0.1"
tracing-subscriber = { version = "0.3", default-features = false, features = ["fmt", "std"] }
