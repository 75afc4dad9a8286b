[package]
name = "app_core"
version = "0.1.0"
edition = "2021"
publish = false

[dependencies]
fugit = "0.3"
cortex-m = "0.7"
cortex-m-rt = "0.7"
embedded-hal = { version = "0.2", features = ["unproven"] }
embedded-graphics = "0.7"
sh1106 = "0.4"
mlx9061x = "0.2"
rp-pico = "0.7"
rtt-target = { version = "0.3", features = ["cortex-m"] }
libm = "0.2"
alloc-cortex-m = "0.4"
