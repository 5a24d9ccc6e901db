[package]
name = "resource_manager"
version = "0.1.0"
edition = "2021"
publish = false

[dependencies]
crossterm = "0.25"
sysinfo = "*"
tui = "0.19"
