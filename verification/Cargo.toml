[package]
name = "bytecode_compiler"
version = "0.1.0"
edition = "2021"
publish = false

[dependencies]
resast = "=0.2.1"
