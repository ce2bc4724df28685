[package]
name = "torquebridge"
version = "0.1.0"
edition = "2021"
publish = false

[dependencies]
anyhow = "=1.0.104"
clap = { version = "=4.6.7", features = ["derive"] }
serde = { version = "=1.0.229", features = ["derive"] }
serde_json = "=1.0.154"
thiserror = "=2.0.21"
hidapi = { version = "=2.6.7", default-features = false, features = ["linux-native-basic-udev"] }
libloading = "=0.8.9"
winapi = { version = "=0.3.9", features = ["dinput", "guiddef", "libloaderapi", "minwindef", "ntdef", "windef", "wincon", "winuser"] }
