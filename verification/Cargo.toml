[package]
name = "riff-wave-reader"
version = "0.1.0"
edition = "2021"
publish = false

[dependencies]
anyhow = "1"
byteorder = "1"
structopt = "0.3"
thiserror = "1"
