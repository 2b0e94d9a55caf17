[package]
name = "bitflip_detector"
version = "0.1.0"
edition = "2021"
publish = false

[dependencies]
chrono = "0.4"
clap = { version = "4", features = ["derive", "cargo"] }
humantime = "2"
rayon = "1"
sysinfo = "0.30"
volatile = "0.4"
