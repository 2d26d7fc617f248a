[package]
name = "lfuzz"
version = "0.1.0"
edition = "2021"
publish = false

[dependencies]
rand = "0.8"
clap = { version = "3", features = ["derive"] }
libc = "0.2"
x11 = { version = "2", features = ["xlib", "xtest"] }
