[package]
name = "igd_provision"
version = "0.1.0"
edition = "2021"
publish = false

[dependencies]
log = "*"
qemu-fw-cfg = "*"
uefi = { version = "*", features = ["alloc", "logger"] }
uefi-raw = "*"
zeroize = "*"
