[package]
name = "rust_release"
version = "0.1.0"
edition = "2021"
publish = false

[dependencies]
curl = "=0.4.51"
getopts = "=0.2.24"
rustc-serialize = "=0.3.25"
