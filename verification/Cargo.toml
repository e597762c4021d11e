[package]
name = "cannonball"
version = "0.1.0"
edition = "2021"
publish = false

[dependencies]
embassy-nrf = { version = "*", features = ["nrf52840"] }
embassy-sync = "*"
embedded-storage-async = "*"
embedded-hal = "*"
nrf-mpsl = "*"
cortex-m = "*"
cortex-m-rt = "*"
panic-halt = "*"
rmk = { version = "*", default-features = false }
