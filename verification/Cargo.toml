[package]
name = "doorstop"
version = "0.1.0"
edition = "2021"
publish = false

[dependencies]
rust-ini = "*"
anyhow = "*"
libc = "*"
libloading = "*"
plthook = "*"
log = "*"
fern = { version = "*", features = ["colored"] }
ctor = "*"
dtor = "*"
