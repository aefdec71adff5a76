[package]
name = "gestures_helper"
version = "0.1.0"
edition = "2021"
publish = false

[dependencies]
zbus = "*"
async-std = { version = "*", features = ["attributes"] }
