[package]
name = "benchmark_suites"
version = "0.1.0"
edition = "2021"
publish = false

[dependencies]
csv = "1.4.0"
