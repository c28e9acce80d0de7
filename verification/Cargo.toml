[package]
name = "raw_ping"
version = "0.1.0"
edition = "2021"
publish = false

[dependencies]
default-net = "=0.22.0"
nix = "=0.26.4"

[dev-dependencies]
internet-checksum = "=0.2.1"
