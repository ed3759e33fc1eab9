[package]
name = "spdk_io"
version = "0.1.0"
edition = "2021"
publish = false

[dependencies]
thiserror = "2"
futures-channel = "0.3"
