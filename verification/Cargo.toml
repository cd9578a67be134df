[package]
name = "voicevox_rs"
version = "0.4.7"
edition = "2021"
publish = false

[dependencies]
aho-corasick = "1"
csv = "1"
serde_urlencoded = "0.7"
serde = { version = "1", features = ["derive"] }
serde_json = "1"
reqwest = { version = "0.11", default-features = false, features = ["blocking"] }
rodio = { version = "0.17", default-features = false, features = ["wav"] }
