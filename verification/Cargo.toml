[package]
name = "rot_management"
version = "0.1.0"
edition = "2021"
publish = false

[dependencies]
anywho = "=0.1.2"
dirs = "=7.0.0"
freedesktop-icons = "=0.4.0"
iced = { version = "=0.14.0", default-features = false, features = ["advanced", "image-without-codecs", "svg", "tiny-skia", "tokio", "x11"] }
open = "=5.4.5"
ron = "=0.12.2"
serde = { version = "=1.0.229", features = ["derive"] }
tokio = { version = "=1.54.1", features = ["io-util", "process", "rt", "sync"] }
