[package]
name = "controller_worker"
version = "0.1.0"
edition = "2021"
publish = false

[dependencies]
chrono = "=0.4.45"
dbus = { version = "=0.9.12", features = ["vendored"] }
fern = "=0.7.1"
log = "=0.4.34"
nix = { version = "=0.29.0", features = ["process"] }
