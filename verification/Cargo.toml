[package]
name = "nrf52840_hal"
version = "0.1.0"
edition = "2021"
publish = false

[dependencies]
nrf52840-pac = "*"
