[package]
name = "patrick_star"
version = "0.1.0"
edition = "2021"
publish = false

[dependencies]
anyhow = "=1.0.104"
png = "=0.18.1"
jpeg-encoder = "=0.7.1"
libc = "*"
