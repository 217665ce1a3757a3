[package]
name = "rusty_clock"
version = "0.1.0"
edition = "2021"
publish = false

[dependencies]
chrono = "0.4"
clap = "2"
dirs = "*"
libc = "0.2"
rlua = "*"
x11 = "2"
