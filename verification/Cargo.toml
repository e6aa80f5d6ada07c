[package]
name = "winix"
version = "0.1.0"
edition = "2021"
publish = false

[dependencies]
colored = "2"
winapi = { version = "0.3", features = ["errhandlingapi", "handleapi", "minwindef", "processthreadsapi", "tlhelp32", "wincon", "windef", "winnt", "winuser"] }
