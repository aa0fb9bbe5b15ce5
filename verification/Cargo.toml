[package]
name = "pulsar"
version = "0.1.0"
edition = "2021"
publish = false

[dependencies]
clap = { version = "4", features = ["derive"] }
crossbeam-channel = "0.5"
ctrlc = "3"
env_logger = "0.11"
log = "0.4"
parking_lot = "0.12"
thiserror = "2"
windows-sys = { version = "0.59", features = ["Win32_Foundation", "Win32_Security", "Win32_Security_Cryptography", "Win32_Security_Cryptography_Catalog", "Win32_Security_WinTrust", "Win32_Storage_FileSystem", "Win32_System_IO", "Win32_System_Services", "Win32_System_Threading", "Win32_System_Diagnostics_Debug", "Win32_Devices_DeviceAndDriverInstallation"] }
