[package]
name = "meta_driver"
version = "0.1.0"
edition = "2021"
publish = false

[dependencies]
wchar = "*"
winapi = { version = "0.3", features = ["minwindef", "ntdef", "ntstatus", "winioctl"] }
