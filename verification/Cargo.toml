[package]
name = "clock_skew"
version = "0.1.0"
edition = "2021"
publish = false

[dependencies]
chrono = "0.4"
errno = "*"
futures = "0.1"
hurdles = "*"
linux-api = "*"
time-sys = "*"
