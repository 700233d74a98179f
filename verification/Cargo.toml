[package]
name = "e310x_hal"
version = "0.1.0"
edition = "2021"
publish = false

[dependencies]
heapless = "*"
critical-section = "*"
nb = "*"
embedded-hal = "*"
embedded-hal-nb = "*"
embedded-hal-async = "*"
embedded-io = "*"
embedded-io-async = "*"
embassy-sync = "*"
embassy-futures = "*"
embassy-time-driver = { version = "*", features = ["tick-hz-32_768"] }
riscv = "*"
