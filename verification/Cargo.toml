[package]
name = "sleepwatcher-rs"
version = "0.1.0"
edition = "2021"
publish = false

[dependencies]
anyhow = "1"
chrono = "0.4"
clap = { version = "4", features = ["derive"] }
env_logger = "0.10"
evdev = { version = "0.12", features = ["tokio"] }
futures = "0.3"
inotify = "0.10"
lazy_static = "1"
log = "0.4"
mlua = { version = "0.9", features = ["luau", "async"] }
nix = { version = "0.27", features = ["fs"] }
sysinfo = "0.29"
tokio = { version = "1", features = ["full"] }
udev = "0.8"
uuid = { version = "1", features = ["v4"] }
wayland-client = "0.31"
wayland-protocols = { version = "0.31", features = ["client", "staging", "unstable"] }
wayland-protocols-wlr = { version = "0.2", features = ["client"] }
xdg = "2"
zbus = { version = "3", default-features = false, features = ["tokio"] }
