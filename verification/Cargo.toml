[package]
name = "dbus_bridge"
version = "0.1.0"
edition = "2021"
publish = false

[dependencies]
serde_json = "*"
futures = "*"
vmm-sys-util = "*"
blocking = "*"
zbus = "*"
seccompiler = "*"
