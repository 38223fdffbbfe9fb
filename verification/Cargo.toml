[package]
name = "vps_toolkit"
version = "0.1.0"
edition = "2021"
publish = false

[dependencies]
rand = "0.9"
libc = "0.2"
chrono = "0.4"
crossterm = "0.28"
ratatui = "0.29"
hostname = "0.4"
serde_json = "1"
signal-hook = "0.3"
sysinfo = "0.32"
ureq = { version = "2", features = ["json"] }
