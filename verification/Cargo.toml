[package]
name = "sturdy_engine"
version = "0.1.0"
edition = "2021"
publish = false

[dependencies]
png = "=0.17.16"
bytemuck = "=1.25.2"
glam = "*"
