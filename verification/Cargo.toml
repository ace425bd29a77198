[package]
name = "zephyr"
version = "0.1.0"
edition = "2021"
publish = false

[dependencies]
arraydeque = "=0.5.1"
arrayvec = "=0.7.8"
bt-hci = "0.8"
critical-section = "=1.2.0"
embassy-executor = "=0.10.0"
embassy-sync = "=0.8.0"
embassy-time-driver = "=0.2.2"
embassy-time-queue-utils = "=0.3.2"
embedded-io = "0.7"
fugit = "=0.3.9"
heapless = "=0.8.0"
log = "=0.4.35"
portable-atomic = "=1.15.0"
portable-atomic-util = { version = "=0.2.8", features = ["alloc"] }
