[package]
name = "desk_locker"
version = "0.1.0"
edition = "2021"
publish = false

[dependencies]
nix = "=0.26.4"
dbus = { version = "=0.9.12", features = ["vendored"] }
structopt = "=0.3.26"
xcb = { version = "=1.7.1", features = ["screensaver"] }
serde = { version = "=1.0.229", features = ["derive"] }
toml = "=0.7.8"
directories = "=5.0.1"

[dev-dependencies]
subprocess = "0.2"
