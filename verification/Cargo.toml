[package]
name = "idat"
version = "0.1.0"
edition = "2021"
publish = false

[dependencies]
thiserror = "1"
