[package]
name = "getlla"
version = "0.1.0"
edition = "2021"
publish = false

[dependencies]
windows-result = "=0.4.1"
thiserror = "=2.0.21"
log = "=0.4.35"
jni = "=0.21.1"
windows = { version = "=0.62.2", features = ["Devices_Geolocation", "Foundation", "System"] }
objc2 = "=0.6.5"
objc2-foundation = "=0.3.2"
objc2-core-location = "=0.3.2"
objc2-core-foundation = "=0.3.2"
