[package]
name = "veh"
version = "0.1.0"
edition = "2021"
publish = false

[dependencies]
once_cell = "1"
pelite = "*"
winapi = { version = "0.3", features = ["winnt"] }
windows-sys = { version = "*", features = ["Win32_Foundation", "Win32_System_Diagnostics_Debug", "Win32_System_Kernel"] }
