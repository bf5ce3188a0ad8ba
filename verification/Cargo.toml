[package]
name = "drag_test"
version = "0.1.0"
edition = "2021"
publish = false

[dependencies]
iced = { version = "0.8", features = ["canvas"] }
