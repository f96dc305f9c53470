[package]
name = "evm_tracing"
version = "0.1.0"
edition = "2021"
publish = false

[dependencies]
evm-core = "=0.43.0"
evm-runtime = "=0.43.0"
primitive-types = "=0.13.1"
