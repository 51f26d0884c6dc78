[package]
name = "taskmenu"
version = "0.1.0"
edition = "2021"
publish = false

[dependencies]
anyhow = "=1.0.104"
chrono = "=0.4.45"
failure = "=0.1.8"
open = "=5.4.5"
rofi = "=0.4.0"
task-hookrs = "0.8"
