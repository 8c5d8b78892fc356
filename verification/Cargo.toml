[package]
name = "flame_rig"
version = "0.1.0"
edition = "2021"
publish = false

[dependencies]
artnet_protocol = "*"
nalgebra = "*"
