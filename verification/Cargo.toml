[package]
name = "usb_boot"
version = "0.1.0"
edition = "2021"
publish = false

[dependencies]
anyhow = "=1.0.104"
egui = "=0.29.1"
libloading = "=0.8.9"
log = "=0.4.35"
rfd = "=0.14.1"
walkdir = "=2.5.0"
windows = { version = "=0.58.0", features = ["Win32_Foundation", "Win32_Security", "Win32_Storage_FileSystem", "Win32_System_IO", "Win32_System_Ioctl"] }
