[package]
name = "heavy"
version = "0.1.0"
edition = "2021"
publish = false

[dependencies]
anyhow = "=1.0.104"
crevice = "=0.8.0"
egui = "0.15"
miniquad = "0.3"
