[package]
name = "hexatalk"
version = "0.1.0"
edition = "2021"
publish = false

[dependencies]
aes-gcm = "=0.10.3"
base64 = "=0.22.1"
chrono = "=0.4.45"
convex = "=0.10.4"
ed25519-dalek = "=2.2.0"
futures = "=0.3.34"
hkdf = "=0.12.4"
maplit = "=1.0.2"
qbsdiff = "=1.4.4"
rand_core = { version = "=0.6.4", features = ["getrandom"] }
reqwest = { version = "=0.12.28", default-features = false, features = ["json", "stream"] }
serde = { version = "=1.0.229", features = ["derive"] }
serde_json = "=1.0.154"
sha2 = "=0.10.9"
tokio = { version = "=1.54.1", features = ["sync", "time", "rt", "macros"] }
tray-icon = "=0.26.1"
gtk = "=0.18.2"
glib = "=0.18.5"
rfd = "=0.17.2"
windows-sys = { version = "=0.61.2", features = ["Win32_Foundation", "Win32_UI_WindowsAndMessaging"] }
