[package]
name = "fallbackdm"
version = "0.1.0"
edition = "2021"
publish = false

[dependencies]
anyhow = "*"
dbus = "*"
env_logger = "*"
input = "*"
libc = "*"
log = "*"
nix = { version = "*", features = ["poll"] }
pam = "*"
