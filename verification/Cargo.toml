[package]
name = "windows_terminal"
version = "0.1.0"
edition = "2021"
publish = false

[dependencies]
win32console = "*"
winapi = { version = "*", features = ["wincon", "winnt", "handleapi"] }
