[package]
name = "msp430_asm"
version = "0.1.0"
edition = "2021"
publish = false

[dependencies]
clap = { version = "3.2", features = ["derive"] }
itertools = "0.10"
