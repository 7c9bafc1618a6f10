[package]
name = "vidcodec"
version = "0.1.0"
edition = "2021"
publish = false

[dependencies]
oxideav-bitstream = "*"
bytes = "1"
thiserror = "2"
