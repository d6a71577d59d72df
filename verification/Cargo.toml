[package]
name = "bluetray"
version = "0.1.0"
edition = "2021"
publish = false

[dependencies]
tao = "0.30"
tokio = { version = "1", features = ["macros", "rt-multi-thread"] }
tray-icon = "0.19"
windows = { version = "0.58", features = ["Devices_Bluetooth", "Devices_Bluetooth_GenericAttributeProfile", "Devices_Bluetooth_Rfcomm", "Devices_Enumeration", "Foundation", "Foundation_Collections", "Networking", "Networking_Sockets"] }
