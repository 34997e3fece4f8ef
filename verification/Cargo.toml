[package]
name = "tilepaste"
version = "0.1.0"
edition = "2021"
publish = false

[dependencies]
glium = "=0.23.0"
glium_text = "=0.14.0"
image = { version = "=0.24.9", default-features = false, features = ["png"] }
