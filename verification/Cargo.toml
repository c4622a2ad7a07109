[package]
name = "flashy64"
version = "0.1.0"
edition = "2021"
publish = false

[dependencies]
bytes = "1"
crc = "3"
md5 = "0.7"
libftd2xx = "*"
clap = { version = "3", default-features = false, features = ["std"] }
lazy_static = "1"
log = "0.4"
