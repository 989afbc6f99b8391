[package]
name = "gpu_cpu_test"
version = "0.1.0"
edition = "2021"
publish = false

[dependencies]
bellperson = { version = "=0.6.0", features = ["gpu"] }
clap = "=2.34.0"
flexi_logger = "=0.14.8"
log = "=0.4.34"
