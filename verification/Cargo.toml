[package]
name = "hasm-openbmc"
version = "0.1.0"
edition = "2021"
publish = false

[dependencies]
defmt = "=1.2.0"
defmt-rtt = "=1.3.1"
embassy-executor = { version = "=0.9.1", features = ["arch-std", "executor-thread"] }
embassy-futures = "=0.1.2"
embassy-net = { version = "=0.9.1", features = ["tcp", "proto-ipv4", "medium-ethernet"] }
embassy-stm32 = { version = "=0.6.0", features = ["stm32f407zg", "time-driver-any"] }
embassy-sync = "=0.8.0"
embassy-time = "=0.5.1"
embassy-usb = "=0.6.0"
embedded-io-async = "=0.7.0"
heapless = "=0.9.3"
panic-probe = "=1.0.0"
static_cell = "=2.1.1"
usbd-hid = "=0.10.2"
