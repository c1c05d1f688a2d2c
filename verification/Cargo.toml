[package]
name = "ignited"
version = "0.1.0"
edition = "2021"
publish = false

[dependencies]
kobject-uevent = "=0.2.0"
netlink-sys = "=0.9.0"
nix = { version = "=0.31.3", features = ["feature", "fs", "ioctl", "kmod", "mount", "process", "time", "user"] }
mio = { version = "=1.2.4", features = ["os-ext", "os-poll"] }
crossbeam-utils = "=0.8.23"
serde = { version = "=1.0.229", features = ["derive"] }
toml = "=1.1.7"
