[package]
name = "webauthn_client"
version = "0.1.0"
edition = "2021"
publish = false

[dependencies]
anyhow = "=1.0.104"
authenticator = "=0.3.1"
base64 = "=0.21.7"
indicatif = "=0.17.11"
notify-rust = "=4.18.2"
serde = { version = "=1.0.229", features = ["derive"] }
serde_json = "=1.0.154"
sha2 = "=0.10.9"
url = "=2.5.8"
widestring = "=1.2.1"
windows = { version = "=0.48.0", features = ["Win32_Foundation", "Win32_Networking_WindowsWebServices", "Win32_UI_WindowsAndMessaging"] }
