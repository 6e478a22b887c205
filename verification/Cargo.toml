[package]
name = "rgmin"
version = "0.2.0"
edition = "2021"
publish = false

[dependencies]
dlpk = "*"
ndarray = "*"
thiserror = "*"
