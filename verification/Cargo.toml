[package]
name = "rispc"
version = "0.1.0"
edition = "2021"
publish = false

[dependencies]
gcc = "0.3"
