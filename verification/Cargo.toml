[package]
name = "engine"
version = "0.1.0"
edition = "2021"
publish = false

[dependencies]
glium = "=0.35.0"
image = { version = "=0.25.10", default-features = false, features = ["png"] }
obj-rs = "=0.7.4"
num-quaternion = "=1.0.9"
uuid = { version = "=1.29.1", features = ["v4"] }
