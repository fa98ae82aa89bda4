[package]
name = "zygisk_api"
version = "0.1.0"
edition = "2021"
publish = false

[dependencies]
bitflags = "2"
jni = "0.21"
libc = "0.2"
thiserror = "1"
