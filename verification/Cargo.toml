[package]
name = "canoe"
version = "0.1.0"
edition = "2021"
publish = false

[dependencies]
freetype = "=0.8.0"
memfd = "=0.6.6"
memmap2 = "=0.9.12"
nix = { version = "=0.29.0", features = ["fs", "poll", "process", "signal"] }
regex = "=1.13.1"
resvg = { version = "=0.49.0", default-features = false }
serde = { version = "=1.0.229", features = ["derive"] }
tempfile = "=3.27.0"
toml = "=0.8.23"
wayland-client = "=0.31.15"
wayland-protocols = { version = "=0.32.13", features = ["client", "staging", "unstable"] }
wayland-protocols-wlr = { version = "=0.3.12", features = ["client"] }
xkbcommon = "=0.8.0"
yeslogic-fontconfig-sys = "=6.0.1"

[dev-dependencies]
xkeysym = "=0.2.1"
