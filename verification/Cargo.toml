[package]
name = "as5600_driver"
version = "0.1.0"
edition = "2021"
publish = false

[dependencies]
embedded-hal = "1"
anyhow = "1"
