[package]
name = "localzone"
version = "0.1.0"
edition = "2021"
publish = false

[dependencies]
chrono-tz = "=0.10.4"
js-sys = "=0.3.106"
windows = { version = "=0.60.0", features = ["Win32_Foundation", "Win32_System_Time"] }
