[package]
name = "xkbcommon"
version = "0.1.0"
edition = "2021"
publish = false

[dependencies]
xkeysym = "0.2"
libc = "0.2"
memmap2 = "0.9"
as-raw-xcb-connection = "1.0"
xcb = "1"
