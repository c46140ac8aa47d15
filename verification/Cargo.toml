[package]
name = "android-emulator"
version = "0.2.0"
edition = "2021"
publish = false

[dependencies]
adb_client = "=3.2.3"
base64 = "=0.22.1"
dirs = "=7.0.0"
libc = "0.2"
p256 = { version = "=0.13.2", features = ["ecdsa"] }
prost = "=0.14.4"
rand_core = { version = "=0.6.4", features = ["getrandom"] }
serde = { version = "1", features = ["derive"] }
serde_json = "=1.0.154"
thiserror = "2"
tokio = { version = "1", features = ["fs", "io-util", "macros", "process", "rt-multi-thread", "sync", "time"] }
tonic = { version = "=0.14.9", default-features = false, features = ["channel", "codegen"] }
tonic-prost = "=0.14.9"
tonic-prost-build = "=0.14.9"
tracing = "0.1"
uuid = { version = "=1.29.0", features = ["v4"] }
win32job = "2"
windows = { version = "0.61", features = ["Win32_Foundation", "Win32_Security", "Win32_System_Diagnostics_ToolHelp", "Win32_System_JobObjects", "Win32_System_Threading"] }
