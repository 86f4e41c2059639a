[package]
name = "nvim_oxi"
version = "0.1.0"
edition = "2021"
publish = false

[dependencies]
nvim-types = "*"
serde = "*"
