[package]
name = "s2l_bootstrap"
version = "0.1.0"
edition = "2021"
publish = false

[dependencies]
colored = "2"
ctrlc = "3"
whoami = "1"
