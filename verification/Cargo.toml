[package]
name = "qorvo_blinky"
version = "0.1.0"
edition = "2021"
publish = false

[dependencies]
dw3000-ng = { version = "=1.0.2", default-features = false, features = ["rssi"] }
embassy-nrf = { version = "=0.11.0", features = ["nrf52833", "time-driver-rtc1", "gpiote"] }
embassy-time = "=0.5.1"
embassy-futures = "=0.1.2"
embassy-sync = "=0.8.0"
embassy-embedded-hal = "=0.6.0"
embedded-hal = "=1.0.0"
embedded-hal-async = "=1.0.0"
embedded-hal-bus = "=0.3.0"
nb = "=1.1.0"
static_cell = "=2.1.1"
