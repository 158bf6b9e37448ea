[package]
name = "rusty_pool"
version = "0.7.0"
edition = "2021"
publish = false

[dependencies]
crossbeam-channel = "0.5"
futures = "0.3"
futures-channel = "0.3"
futures-executor = "0.3"
num_cpus = "1"
