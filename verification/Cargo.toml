[package]
name = "win32emu"
version = "0.1.0"
edition = "2021"
publish = false

[dependencies]
iced-x86 = { version = "1", default-features = false, features = ["std", "decoder"] }
num-traits = "0.2"
log = "0.4"
windows-sys = { version = "*", features = ["Win32_Foundation", "Win32_Storage_FileSystem", "Win32_System_Console", "Win32_System_IO", "Win32_System_Threading"] }
