[package]
name = "audio_core"
version = "0.1.0"
edition = "2021"
publish = false

[dependencies]
anyhow = "=1.0.104"
futures = "=0.3.34"
log = "=0.4.34"
once_cell = "=1.21.4"
parking_lot = "=0.12.5"
serde = { version = "=1.0.229", features = ["derive"] }
specta = { version = "=2.0.0-rc.22", features = ["derive"] }
specta-typescript = "=0.0.9"
toml = "=0.8.23"
windows = { version = "=0.58.0", features = ["implement", "Win32_Foundation", "Win32_Media_Audio", "Win32_Security", "Win32_System_Com", "Win32_System_Com_StructuredStorage", "Win32_System_Variant", "Win32_UI_Shell_PropertiesSystem"] }
