[package]
name = "verandah_plugin_pomodoro"
version = "0.1.0"
edition = "2021"
publish = false

[dependencies]
ab_glyph = "0.2"
abi_stable = "0.11"
clap = { version = "4", features = ["derive"] }
derive_more = { version = "2", features = ["from"] }
image = { version = "0.25", default-features = false, features = ["png"] }
imageproc = { version = "0.25", default-features = false }
rodio = { version = "0.20", default-features = false, features = ["vorbis", "wav", "mp3"] }
serde = { version = "1", features = ["derive"] }
strum = { version = "0.27", features = ["derive"] }
toml = "0.8"
tracing = "0.1"
xdg = "2.5"
