[package]
name = "embedded-storage-sd-spi"
version = "0.1.0"
edition = "2021"
publish = false

[dependencies]
aligned = "*"
block-device-adapters = "*"
block-device-driver = "*"
embedded-hal-async = "*"
embedded-io-async = "*"
embedded-storage-async = "*"
