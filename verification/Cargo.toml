[package]
name = "mousemux"
version = "0.1.0"
edition = "2021"
publish = false

[dependencies]
winapi = { version = "0.3", features = ["winuser", "windef", "minwindef", "basetsd", "winbase", "errhandlingapi"] }
lazy_static = "1.4"
log = "0.4"
