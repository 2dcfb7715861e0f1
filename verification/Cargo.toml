[package]
name = "idevice_pair"
version = "0.1.0"
edition = "2021"
publish = false

[dependencies]
idevice = { version = "=0.1.68", features = ["usbmuxd", "pair", "installation_proxy", "house_arrest", "afc", "mobile_image_mounter", "tss", "tcp"] }
plist = "=1.10.3"
uuid = { version = "=1.29.0", features = ["v4"] }
mdns = "=3.0.0"
tokio = { version = "=1.54.1", features = ["rt-multi-thread", "net", "sync"] }
futures-util = "=0.3.34"
log = "=0.4.34"
