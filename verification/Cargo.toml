[package]
name = "sumatra_parser"
version = "0.1.0"
edition = "2021"
publish = false

[dependencies]
byteorder = "1"
env_logger = "*"
num_cpus = "1"
anyhow = "1"
