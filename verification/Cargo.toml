[package]
name = "spacetime_physics"
version = "0.1.0"
edition = "2021"
publish = false

[dependencies]
glam = "=0.33.12"
parry3d = "=0.31.1"
