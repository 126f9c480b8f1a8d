[package]
name = "winaudio"
version = "0.1.0"
edition = "2021"
publish = false

[dependencies]
windows = { version = "0.48", features = ["implement", "Win32_Foundation", "Win32_Media_Audio", "Win32_Media_Audio_Endpoints", "Win32_System_Com", "Win32_System_Com_StructuredStorage", "Win32_UI_Shell_PropertiesSystem", "Win32_Devices_Properties", "Win32_Devices_FunctionDiscovery"] }
