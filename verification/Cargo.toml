[package]
name = "pinetime_bsp"
version = "0.1.0"
edition = "2021"
publish = false

[dependencies]
embedded-graphics = "=0.8.2"
embassy-nrf = { version = "=0.11.0", features = ["nrf52832", "time-driver-rtc1", "gpiote", "time"] }
embassy-time = "=0.5.1"
embassy-sync = "=0.8.0"
embassy-embedded-hal = "=0.6.0"
static_cell = "=2.1.1"
lcd-async = "=0.1.3"
mipidsi = "=0.10.0"
spi-memory-async = "=0.2.0"
cst816s = "=1.0.1"
nrf-sdc = { version = "*", features = ["nrf52832", "peripheral"] }
