[package]
name = "pico2w-bootloader"
version = "0.1.0"
edition = "2021"
publish = false

[dependencies]
crc = "=3.4.0"
cortex-m = "=0.7.10"
defmt = "*"
defmt-rtt = "*"
embassy-futures = "=0.1.2"
embassy-time = "=0.5.1"
embedded-storage = "=0.3.2"
