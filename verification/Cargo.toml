[package]
name = "steppulse"
version = "0.1.0"
edition = "2021"
publish = false

[dependencies]
hash32 = "=0.3.1"
heapless = "=0.9.3"
embassy-sync = "*"
embassy-time = "*"
embassy-futures = "*"
log = "*"
embedded-hal = "*"
embedded-hal-async = "*"
smart-leds = "*"
rtos-trace = "*"

[dev-dependencies]
bitvec = "=1.1.1"
