[package]
name = "race_log_parser"
version = "0.1.0"
edition = "2021"
publish = false

[dependencies]
scroll = "0.12"
