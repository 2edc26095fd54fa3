[package]
name = "embassy_dht_sensor"
version = "0.1.0"
edition = "2021"
publish = false

[dependencies]
cortex-m = "0.7"
embassy-rp = "0.1"
embassy-time = "0.3"
