[package]
name = "elertan_cheat_base"
version = "0.1.0"
edition = "2021"
publish = false

[dependencies]
sysinfo = "*"
winapi = { version = "0.3", features = ["consoleapi", "d3d9", "d3d9types", "libloaderapi", "memoryapi", "minwindef", "ntdef", "processthreadsapi", "wincon", "windef", "winnt", "winuser"] }
