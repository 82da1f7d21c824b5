[package]
name = "process_control"
version = "0.1.0"
edition = "2021"
publish = false

[dependencies]
libc = "0.2"
signal-hook = "*"
windows-sys = { version = "*", features = ["Win32_Foundation", "Win32_Security", "Win32_Storage_FileSystem", "Win32_System_IO", "Win32_System_JobObjects", "Win32_System_Threading"] }
