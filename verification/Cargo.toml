[package]
name = "rusty_rtos_backoff"
version = "0.1.0"
edition = "2021"
publish = false

[dependencies]
rusty_rtos_core = "*"
