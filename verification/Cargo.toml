[package]
name = "pi_pointer"
version = "0.1.0"
edition = "2021"

[dependencies]
crate_interface = "*"
