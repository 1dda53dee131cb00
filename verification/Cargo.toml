[package]
name = "screenruster"
version = "0.1.0"
edition = "2021"
publish = false

[dependencies]
rand = "=0.8.8"
toml = "=0.8.23"
dbus = "=0.6.5"
libdbus-sys = { version = "=0.2.7", features = ["vendored"] }
clap = "=2.34.0"
xcb = { version = "=0.9.0", features = ["dpms", "randr"] }
xdg = "=2.5.2"
pam-sys = "=0.5.6"
users = "=0.11.0"
libc = "=0.2.191"
log = "=0.4.34"
env_logger = "=0.10.2"
