[package]
name = "typd"
version = "0.1.0"
edition = "2021"
publish = false

[dependencies]
wayland-client = "0.31"
wayland-backend = "0.3"
wayland-protocols = { version = "0.32", features = ["client", "unstable", "staging"] }
wayland-protocols-misc = { version = "0.3", features = ["client"] }
smithay-client-toolkit = { version = "0.18", default-features = false, features = ["calloop"] }
calloop = "0.12"
calloop-wayland-source = "0.2"
cairo-rs = "0.18"
xkbcommon = "0.7"
libc = "0.2"
