[package]
name = "ik_bridge"
version = "0.1.0"
edition = "2021"
publish = false

[dependencies]
k = "=0.32.0"
urdf-rs = "=0.9.1"
