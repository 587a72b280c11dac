[package]
name = "status_display"
version = "0.1.0"
edition = "2021"
publish = false

[dependencies]
alloc-cortex-m = "=0.4.4"
cortex-m = "=0.7.10"
cortex-m-rt = "=0.7.7"
embedded-graphics = "=0.7.1"
fugit = "=0.3.9"
rp-pico = "=0.6.0"
rtt-target = { version = "=0.3.1", features = ["cortex-m"] }
sh1106 = "=0.4.0"
