[package]
name = "microfetch"
version = "0.1.0"
edition = "2021"
publish = false

[dependencies]
windows = { version = "=0.59.0", features = ["Wdk_System_Threading", "Win32_Foundation", "Win32_NetworkManagement_NetManagement", "Win32_Security", "Win32_Storage_FileSystem", "Win32_System_Kernel", "Win32_System_LibraryLoader", "Win32_System_SystemInformation", "Win32_System_Threading", "Win32_System_WindowsProgramming"] }
windows-strings = "=0.3.1"
