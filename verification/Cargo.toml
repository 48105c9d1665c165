[package]
name = "gamepad_backend"
version = "0.1.0"
edition = "2021"
publish = false

[dependencies]
uuid = "=1.27.0"
windows = { version = "=0.58.0", default-features = false, features = ["Foundation", "Foundation_Collections", "Gaming_Input", "Gaming_Input_ForceFeedback", "Devices_Power", "System_Power"] }
