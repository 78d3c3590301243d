[package]
name = "raytracer"
version = "0.1.0"
edition = "2021"
publish = false

[dependencies]
triple_buffer = "6"
rand = "0.8"
rayon = "1"
minifb = "0.19"
