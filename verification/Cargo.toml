[package]
name = "springs"
version = "0.1.2"
edition = "2021"
publish = false

[dependencies]
glam = "0.29"
