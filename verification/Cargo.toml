[package]
name = "health_probe"
version = "0.1.0"
edition = "2021"
publish = false

[dependencies]
nix = "=0.26.4"
libc = "=0.2.190"
actix-web = "=4.15.0"
clap = { version = "=4.6.7", features = ["derive"] }
