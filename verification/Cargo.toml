[package]
name = "jobslot"
version = "0.2.0"
edition = "2021"
publish = false

[dependencies]
cfg-if = "1"
derive_destructure2 = "0.1"
getrandom = { version = "0.2", features = ["std"] }
libc = "0.2"
scopeguard = "1"
tokio = { version = "1", features = ["net", "process", "rt"] }
windows-sys = { version = "0.52", features = ["Win32_Foundation", "Win32_Security", "Win32_System_Threading", "Win32_System_WindowsProgramming"] }
