[package]
name = "solar1"
version = "0.1.0"
edition = "2021"
publish = false

[dependencies]
log = "*"
simple_logger = "*"
vst = "*"
