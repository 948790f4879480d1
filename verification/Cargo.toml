[package]
name = "audio_thread_priority"
version = "0.1.0"
edition = "2021"
publish = false

[dependencies]
dbus = "=0.6.5"
jni = "=0.21.1"
libc = "=0.2.191"
libdbus-sys = { version = "=0.2.7", features = ["vendored"] }
log = "=0.4.34"
mach = "=0.3.2"
once_cell = "=1.21.4"
winapi = { version = "=0.3.9", features = ["errhandlingapi", "libloaderapi", "minwindef", "ntdef"] }
