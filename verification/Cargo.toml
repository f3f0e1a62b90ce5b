[package]
name = "cursor_speed_pin"
version = "0.1.0"
edition = "2021"
publish = false

[dependencies]
anyhow = "=1.0.104"
log = "=0.4.34"
simplelog = "=0.9.0"
trayicon = "=0.1.5"
winit = "=0.25.0"
winapi = { version = "=0.3.9", features = ["combaseapi", "guiddef", "impl-default", "shellapi", "winnt", "winuser"] }
