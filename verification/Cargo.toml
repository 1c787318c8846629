[package]
name = "nt_minimal_template"
version = "0.1.0"
edition = "2021"
publish = false

[dependencies]
anyhow = "=1.0.104"
clap = { version = "=4.6.7", features = ["derive"] }
windows = { version = "=0.59.0", features = ["Win32_Foundation", "Win32_Storage_FileSystem", "Win32_System_IO", "Win32_Security"] }
wdk = "=0.5.0"
wdk-sys = "=0.5.2"
wdk-alloc = "=0.4.2"
wdk-panic = "=0.5.0"
