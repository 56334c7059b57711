[package]
name = "nix"
version = "0.1.0"
edition = "2021"
publish = false

[dependencies]
bitflags = "0.7"
libc = "0.2"
void = "1"
