[package]
name = "file_dialog"
version = "0.1.0"
edition = "2021"
publish = false

[dependencies]
raw-window-handle = "0.3"
winapi = { version = "0.3", features = ["combaseapi", "shobjidl", "shobjidl_core", "shtypes", "winerror", "minwindef", "ntdef", "guiddef", "wtypesbase"] }
