[package]
name = "ultradebug_spi"
version = "0.1.0"
edition = "2021"
publish = false

[dependencies]
anyhow = "1"
log = "0.4"
safe-ftdi = "*"
thiserror = "1"
