[package]
name = "tps6572x"
version = "0.1.0"
edition = "2021"
publish = false

[dependencies]
embedded-hal = "1.0"
modular-bitfield = "0.11"
