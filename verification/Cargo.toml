[package]
name = "crosswin"
version = "0.4.0"
edition = "2021"
publish = false

[dependencies]
num_cpus = "1"
widestring = "1"
tokio = { version = "1", features = ["rt", "rt-multi-thread"] }
serde = { version = "1", features = ["derive"] }
windows = { version = "0.52", features = ["Win32_Foundation", "Win32_Security", "Win32_System_Threading", "Win32_System_Diagnostics_ToolHelp", "Win32_System_ProcessStatus", "Win32_System_SystemInformation", "Win32_UI_WindowsAndMessaging"] }
