[package]
name = "apng"
version = "0.1.0"
edition = "2021"
publish = false

[dependencies]
byteorder = "1"
flate2 = "1"
image = { version = "0.23", default-features = false, features = ["png"] }
png = "0.17"
thiserror = "1"
