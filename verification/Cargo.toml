[package]
name = "plot3d"
version = "0.1.0"
edition = "2021"
publish = false

[dependencies]
fontdue = "0.7"
gl = "0.14"
glam = "0.24"
glutin = "0.29"
thiserror = "1"
