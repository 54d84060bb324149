[package]
name = "nvglances"
version = "0.1.0"
edition = "2021"
publish = false

[dependencies]
anyhow = "*"
chrono = "*"
crossterm = "*"
humansize = "*"
nvml-wrapper = "*"
ratatui = "*"
sysinfo = "*"
