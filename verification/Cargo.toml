[package]
name = "exa"
version = "0.3.0"
edition = "2021"
publish = false

[dependencies]
getopts = "0.2"
natord = "1.0"
