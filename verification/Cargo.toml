[package]
name = "raytracing"
version = "0.1.0"
edition = "2021"

[dependencies]
indicatif = "0.17"
rand = "0.8"
