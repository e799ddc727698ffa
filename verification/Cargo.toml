[package]
name = "triangles"
version = "0.1.0"
edition = "2021"
publish = false

[dependencies]
argparse = "0.2"
gl = "0.14"
glutin = "0.29"
image = { version = "0.24", default-features = false, features = ["png", "jpeg"] }
rand = "0.8"
