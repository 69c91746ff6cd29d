[package]
name = "talpid_core"
version = "0.1.0"
edition = "2021"
publish = false

[dependencies]
futures = "=0.3.34"
htmlize = { version = "=1.1.0", features = ["unescape"] }
ipnetwork = "=0.21.1"
log = "=0.4.34"
nix = { version = "=0.30.1", features = ["time"] }
regex = "=1.13.1"
thiserror = "=2.0.21"
tokio = { version = "=1.54.1", features = ["rt", "rt-multi-thread", "sync", "time", "macros"] }
widestring = "1"
windows-sys = { version = "0.59", features = ["Win32_Foundation", "Win32_Networking_WinSock", "Win32_NetworkManagement_Ndis", "Win32_System_Com", "Win32_System_LibraryLoader", "Win32_System_Threading", "Win32_UI_WindowsAndMessaging"] }
winreg = { version = "0.52", features = ["transactions"] }
