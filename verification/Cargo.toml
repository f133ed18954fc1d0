[package]
name = "kruti_typing"
version = "0.1.0"
edition = "2021"
publish = false

[dependencies]
rand = "=0.8.8"
chrono = { version = "=0.4.45", default-features = false, features = ["clock", "std"] }
rusqlite = { version = "=0.32.1", features = ["bundled"] }
native-dialog = "=0.7.0"
iced = { version = "=0.13.1", default-features = false, features = ["tiny-skia", "smol"] }
