[package]
name = "network_change"
version = "0.1.0"
edition = "2021"
publish = false

[dependencies]
bitflags = "=2.13.2"
block2 = "=0.6.2"
napi = { version = "=3.15.0", default-features = false, features = ["napi4"] }
napi-derive = "=3.6.13"
windows-core = "=0.62.2"
windows = { version = "=0.62.2", features = ["Win32_Foundation", "Win32_NetworkManagement_IpHelper", "Win32_NetworkManagement_Ndis", "Win32_Networking_NetworkListManager", "Win32_Networking_WinSock", "Win32_System_Com", "Win32_System_Ole"] }
