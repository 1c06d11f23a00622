[package]
name = "bubble_level"
version = "0.1.0"
edition = "2021"
publish = false

[dependencies]
cortex-m = "*"
cortex-m-rt = "*"
embedded-hal = "*"
lsm303agr = "*"
microbit-v2 = "*"
micromath = "*"
panic-rtt-target = "*"
rtt-target = "*"
