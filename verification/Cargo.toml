[package]
name = "indy"
version = "0.1.0"
edition = "2021"
publish = false

[dependencies]
failure = "0.1"
futures = "0.1"
indy-sys = "*"
lazy_static = "1"
libc = "0.2"
log = "0.4"
num-derive = "*"
num-traits = "0.2"
serde = "1"
serde_derive = "1"
serde_json = "1"
thiserror = "*"
