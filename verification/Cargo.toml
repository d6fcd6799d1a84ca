[package]
name = "particle_fountain"
version = "0.1.0"
edition = "2021"
publish = false

[dependencies]
rustc_apfloat = "0.2"
rand = "0.8"
glium = "*"
time = "0.1"
