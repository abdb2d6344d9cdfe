[package]
name = "rebpf"
version = "0.1.0"
edition = "2021"
publish = false

[dependencies]
bitflags = "1"
lazy_static = "1"
libc = "0.2"
maybe-uninit = "2"
proc-macro2 = "1"
quote = "1"
syn = "1"
thiserror = "1"
