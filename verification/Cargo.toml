[package]
name = "scap_rs"
version = "0.1.0"
edition = "2021"
publish = false

[dependencies]
anyhow = "1"
log = "0.4"
dbus = "0.9"
pipewire = "0.9"
xcb = { version = "1", features = ["randr", "xlib_xcb"] }
x11 = { version = "2", features = ["xlib"] }
