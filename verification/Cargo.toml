[package]
name = "phantom-server"
version = "0.1.0"
edition = "2021"
publish = false

[dependencies]
anyhow = "=1.0.104"
arboard = { version = "=3.7.0", default-features = false }
audiopus = "=0.3.0-rc.0"
bincode = "=1.3.3"
clap = { version = "=4.6.7", features = ["derive"] }
ctrlc = "=3.5.2"
dbus = { version = "=0.9.12", features = ["vendored"] }
enigo = { version = "=0.2.1", default-features = false, features = ["x11rb"] }
evdev = "=0.13.2"
openh264 = "=0.6.6"
pipewire = "=0.8.0"
rustls = { version = "=0.23.46", default-features = false, features = ["ring", "std"] }
scrap = "=0.5.0"
serde = { version = "=1.0.229", features = ["derive"] }
tracing = "=0.1.44"
tracing-appender = "=0.2.5"
tracing-subscriber = { version = "=0.3.23", features = ["env-filter"] }
windows = { version = "=0.58.0", features = ["Win32_Devices_Display", "Win32_Foundation", "Win32_Graphics_Gdi", "Win32_Media_Audio", "Win32_Security", "Win32_Security_Authorization", "Win32_Storage_FileSystem", "Win32_System_Com", "Win32_System_Diagnostics_ToolHelp", "Win32_System_Environment", "Win32_System_IO", "Win32_System_Pipes", "Win32_System_RemoteDesktop", "Win32_System_StationsAndDesktops", "Win32_System_Threading", "Win32_UI_Input_KeyboardAndMouse", "Win32_UI_WindowsAndMessaging"] }
windows-service = "=0.7.0"
x11-dl = "=2.21.0"
zstd = "=0.13.4"

[lints.rust]
unexpected_cfgs = { level = "warn", check-cfg = ["cfg(wayland)"] }
