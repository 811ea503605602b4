[package]
name = "fastlock"
version = "0.1.0"
edition = "2021"
publish = false

[dependencies]
rayon = "1"
windows-sys = { version = "*", features = ["Win32_Foundation", "Win32_System_Threading"] }
