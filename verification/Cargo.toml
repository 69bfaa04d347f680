[package]
name = "dx_renderer"
version = "0.1.0"
edition = "2021"
publish = false

[dependencies]
cgmath = "0.17"
d3d12 = "0.3"
winapi = { version = "0.3", features = ["basetsd", "d3d12", "d3d12sdklayers", "d3dcommon", "d3dcompiler", "dxgi", "dxgi1_2", "dxgi1_3", "dxgi1_4", "dxgiformat", "dxgitype", "handleapi", "libloaderapi", "minwindef", "ntdef", "synchapi", "winbase", "windef", "winerror", "winuser"] }
