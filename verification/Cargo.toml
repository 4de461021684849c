[package]
name = "rk3568_emmc"
version = "0.1.0"
edition = "2021"
publish = false

[dependencies]
bare-test = "*"
log = "0.4"
