[package]
name = "benchmark_interruptible_sleep"
version = "0.1.0"
edition = "2021"
publish = false

[dependencies]
assert2 = "*"
fastrand = "*"
