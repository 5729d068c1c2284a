[package]
name = "netstatus"
version = "0.1.0"
edition = "2021"
publish = false

[dependencies]
dbus = "*"
chan = "*"
uuid = { version = "*", features = ["v4"] }
