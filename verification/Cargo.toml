[package]
name = "coop_kernel"
version = "0.1.0"
edition = "2021"
publish = false

[dependencies]
heapless = "0.8"
critical-section = "1"
cortex-m = "0.7"
cortex-m-rt = "0.7"
embedded-hal = "1"
fugit = "0.3"
microbit-v2 = "*"
rtt-target = "*"
