[package]
name = "webp_screenshot"
version = "0.1.0"
edition = "2021"
publish = false

[dependencies]
num_cpus = "=1.17.0"
webp = "=0.3.1"
crossbeam-channel = "=0.5.17"
x11rb = { version = "=0.14.0", features = ["randr"] }
