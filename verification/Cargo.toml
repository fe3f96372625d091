[package]
name = "keter-reactor"
version = "0.1.0"
edition = "2021"
publish = false

[dependencies]
android-activity = { version = "0.5", default-features = false, features = ["native-activity"] }
async-io = "2"
event-listener = "4"
futures-core = "0.3"
futures-lite = "2"
once_cell = "1"
rustix = { version = "0.38", features = ["process", "thread"] }
web-time = "1"
